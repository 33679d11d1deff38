use vstd::prelude::*;
use crate::text::{
    check_digit, clean_cell, clean_cell_chars, contains_seq, contains_sub, contains_char,
    count_digits_from, count_while, dec_val, digit_char, digits_value, find_cost_micro,
    find_number_micro, is_digit, lemma_count_while_bounds, parse_cost_micro, parse_number_micro,
    split_chars, split_on, string_of_chars, chars_of_str, to_digit_char,
};

verus! {

/// One day's spending: a `MM/DD` or `MM-DD` key, the cost in millionths of a
/// dollar, and how many billing sessions were seen. Merging saturates.
pub struct DailyCost {
    pub date: String,
    pub cost_micro: u64,
    pub sessions: u32,
}

/// The three field widths of a date token `digits/digits/digits` read at the
/// start of `t`: each a maximal digit run.
pub open spec fn date_fields_at(t: Seq<char>) -> Option<(int, int, int)> {
    let a = count_while(t, |c: char| is_digit(c));
    if 1 <= a && a < t.len() && t[a] == '/' {
        let u = t.skip(a + 1);
        let b = count_while(u, |c: char| is_digit(c));
        if 1 <= b && b < u.len() && u[b] == '/' {
            let w = u.skip(b + 1);
            let cc = count_while(w, |c: char| is_digit(c));
            if 1 <= cc {
                Some((a, b, cc))
            } else {
                None
            }
        } else {
            None
        }
    } else {
        None
    }
}

/// The (year, month, day) values of a date token at the start of `t`, read as
/// month/day/year when the last field has four digits, and as year/month/day
/// when the first does; month and day fields may have one or two digits.
pub open spec fn date_at(t: Seq<char>) -> Option<(nat, nat, nat)> {
    match date_fields_at(t) {
        Some((a, b, cc)) => {
            let v1 = dec_val(t.subrange(0, a));
            let v2 = dec_val(t.subrange(a + 1, a + 1 + b));
            let v3 = dec_val(t.subrange(a + 1 + b + 1, a + 1 + b + 1 + cc));
            if a <= 2 && b <= 2 && cc == 4 {
                Some((v3, v1, v2))
            } else if a == 4 && b <= 2 && cc <= 2 {
                Some((v1, v2, v3))
            } else {
                None
            }
        },
        None => None,
    }
}

/// The first date token in `s`: tokens are sought at the start of each maximal
/// digit run, left to right.
pub open spec fn find_date(s: Seq<char>) -> Option<(nat, nat, nat)>
    decreases s.len(),
    via find_date_decreases
{
    if s.len() == 0 {
        None
    } else if is_digit(s[0]) {
        if date_at(s) is Some {
            date_at(s)
        } else {
            find_date(s.skip(count_while(s, |c: char| is_digit(c))))
        }
    } else {
        find_date(s.drop_first())
    }
}

#[via_fn]
proof fn find_date_decreases(s: Seq<char>) {
    if s.len() > 0 && is_digit(s[0]) {
        lemma_count_while_bounds(s, |c: char| is_digit(c));
    }
}

pub open spec fn is_leap_year(y: int) -> bool {
    y % 4 == 0 && (y % 100 != 0 || y % 400 == 0)
}

pub open spec fn days_in_month(y: int, m: int) -> int {
    if m == 1 || m == 3 || m == 5 || m == 7 || m == 8 || m == 10 || m == 12 {
        31
    } else if m == 4 || m == 6 || m == 9 || m == 11 {
        30
    } else if is_leap_year(y) {
        29
    } else {
        28
    }
}

/// A real calendar date, as the proleptic Gregorian calendar has it.
pub open spec fn valid_date(y: int, m: int, d: int) -> bool {
    1 <= m <= 12 && 1 <= d <= days_in_month(y, m)
}

pub fn check_valid_date(y: u64, m: u64, d: u64) -> (r: bool)
    ensures
        r == valid_date(y as int, m as int, d as int),
{
    let days: u64 = if m == 1 || m == 3 || m == 5 || m == 7 || m == 8 || m == 10 || m == 12 {
        31
    } else if m == 4 || m == 6 || m == 9 || m == 11 {
        30
    } else if y % 4 == 0 && (y % 100 != 0 || y % 400 == 0) {
        29
    } else {
        28
    };
    1 <= m && m <= 12 && 1 <= d && d <= days
}

/// A month or day shown with two digits.
pub open spec fn two_digit_chars(n: nat) -> Seq<char> {
    seq![digit_char(((n / 10) % 10) as int), digit_char((n % 10) as int)]
}

/// A `MM/DD` key, as the fallback table reports it.
pub open spec fn mmdd_chars(m: nat, d: nat) -> Seq<char> {
    two_digit_chars(m) + seq!['/'] + two_digit_chars(d)
}

pub fn mmdd_key(m: u64, d: u64) -> (v: Vec<char>)
    ensures
        v@ == mmdd_chars(m as nat, d as nat),
{
    let mut v: Vec<char> = Vec::new();
    v.push(to_digit_char((m / 10) % 10));
    v.push(to_digit_char(m % 10));
    v.push('/');
    v.push(to_digit_char((d / 10) % 10));
    v.push(to_digit_char(d % 10));
    proof {
        assert(v@ =~= mmdd_chars(m as nat, d as nat));
    }
    v
}

/// Read the date-token fields starting exactly at `from` (a digit position).
fn scan_date_at(v: &Vec<char>, from: usize) -> (r: Option<(u64, u64, u64)>)
    requires
        from <= v@.len(),
    ensures
        match r {
            Some(ymd) => date_at(v@.skip(from as int)) == Some(
                (ymd.0 as nat, ymd.1 as nat, ymd.2 as nat),
            ),
            None => date_at(v@.skip(from as int)) is None,
        },
{
    let ghost t = v@.skip(from as int);
    let len = v.len();
    let a_end = count_digits_from(v, from);
    let a = a_end - from;
    if !(1 <= a && a_end < len && v[a_end] == '/') {
        proof {
            if a_end < len {
                assert(t[a as int] == v@[a_end as int]);
            }
        }
        return None;
    }
    proof {
        assert(t[a as int] == v@[a_end as int]);
        assert(t.skip(a as int + 1) =~= v@.skip(a_end as int + 1));
    }
    let b_end = count_digits_from(v, a_end + 1);
    let b = b_end - (a_end + 1);
    let ghost u = t.skip(a as int + 1);
    if !(1 <= b && b_end < len && v[b_end] == '/') {
        proof {
            if b_end < len {
                assert(u[b as int] == v@[b_end as int]);
            }
        }
        return None;
    }
    proof {
        assert(u[b as int] == v@[b_end as int]);
        assert(u.skip(b as int + 1) =~= v@.skip(b_end as int + 1));
    }
    let c_end = count_digits_from(v, b_end + 1);
    let cc = c_end - (b_end + 1);
    if cc == 0 {
        return None;
    }
    proof {
        assert(date_fields_at(t) == Some((a as int, b as int, cc as int)));
    }
    if !(a <= 2 && b <= 2 && cc == 4) && !(a == 4 && b <= 2 && cc <= 2) {
        return None;
    }
    let v1 = digits_value(v, from, a_end);
    let v2 = digits_value(v, a_end + 1, b_end);
    let v3 = digits_value(v, b_end + 1, c_end);
    proof {
        assert(v@.subrange(from as int, a_end as int) =~= t.subrange(0, a as int));
        assert(v@.subrange(a_end as int + 1, b_end as int) =~= t.subrange(
            a as int + 1,
            a as int + 1 + b as int,
        ));
        assert(v@.subrange(b_end as int + 1, c_end as int) =~= t.subrange(
            a as int + 1 + b as int + 1,
            a as int + 1 + b as int + 1 + cc as int,
        ));
    }
    if a <= 2 && b <= 2 && cc == 4 {
        Some((v3, v1, v2))
    } else {
        Some((v1, v2, v3))
    }
}

/// Find the first date token in a cell.
pub fn scan_date(v: &Vec<char>) -> (r: Option<(u64, u64, u64)>)
    ensures
        match r {
            Some(ymd) => find_date(v@) == Some((ymd.0 as nat, ymd.1 as nat, ymd.2 as nat)),
            None => find_date(v@) is None,
        },
{
    let len = v.len();
    let mut i: usize = 0;
    proof {
        assert(v@.skip(0) =~= v@);
    }
    while i < len
        invariant
            len == v@.len(),
            i <= len,
            find_date(v@) == find_date(v@.skip(i as int)),
        decreases len - i,
    {
        let ghost tail = v@.skip(i as int);
        proof {
            assert(tail[0] == v@[i as int]);
            assert(tail.drop_first() =~= v@.skip(i as int + 1));
        }
        if check_digit(v[i]) {
            let run_end = count_digits_from(v, i);
            proof {
                assert(tail.skip(count_while(tail, |c: char| is_digit(c))) =~= v@.skip(
                    run_end as int,
                ));
            }
            match scan_date_at(v, i) {
                Some(ymd) => {
                    return Some(ymd);
                },
                None => {
                    proof {
                        lemma_count_while_bounds(tail, |c: char| is_digit(c));
                    }
                    i = run_end;
                },
            }
        } else {
            i = i + 1;
        }
    }
    proof {
        assert(v@.skip(len as int) =~= Seq::<char>::empty());
    }
    None
}

} // verus!

verus! {

/// The mathematical content of a cost list: date key, cost in millionths,
/// session count.
pub open spec fn dc_model(m: Seq<DailyCost>) -> Seq<(Seq<char>, nat, nat)> {
    Seq::new(m.len(), |i: int| (m[i].date@, m[i].cost_micro as nat, m[i].sessions as nat))
}

/// Position of a key in the model, or its length when the key is absent.
pub open spec fn key_index(m: Seq<(Seq<char>, nat, nat)>, key: Seq<char>) -> int
    decreases m.len(),
{
    if m.len() == 0 {
        0
    } else if m[0].0 == key {
        0
    } else {
        1 + key_index(m.drop_first(), key)
    }
}

pub open spec fn has_key(m: Seq<(Seq<char>, nat, nat)>, key: Seq<char>) -> bool {
    key_index(m, key) < m.len()
}

pub proof fn lemma_key_index(m: Seq<(Seq<char>, nat, nat)>, key: Seq<char>)
    ensures
        0 <= key_index(m, key) <= m.len(),
        key_index(m, key) < m.len() ==> m[key_index(m, key)].0 == key,
        forall|j: int| 0 <= j < key_index(m, key) ==> m[j].0 != key,
    decreases m.len(),
{
    if m.len() > 0 && m[0].0 != key {
        lemma_key_index(m.drop_first(), key);
        assert forall|j: int| 0 <= j < key_index(m, key) implies m[j].0 != key by {
            if j > 0 {
                assert(m.drop_first()[j - 1].0 != key);
            }
        }
        if key_index(m, key) < m.len() {
            assert(m.drop_first()[key_index(m, key) - 1].0 == key);
        }
    }
}

/// Record a day's cost, replacing any earlier entry for the same date with a
/// fresh single-session entry.
pub open spec fn upsert_overwrite(
    m: Seq<(Seq<char>, nat, nat)>,
    key: Seq<char>,
    cost: nat,
) -> Seq<(Seq<char>, nat, nat)> {
    if has_key(m, key) {
        m.update(key_index(m, key), (key, cost, 1nat))
    } else {
        m.push((key, cost, 1nat))
    }
}

/// Record a day's cost, adding cost and one session to any earlier entry for
/// the same date; the sums saturate at their types' limits.
pub open spec fn upsert_merge(
    m: Seq<(Seq<char>, nat, nat)>,
    key: Seq<char>,
    cost: nat,
) -> Seq<(Seq<char>, nat, nat)> {
    if has_key(m, key) {
        let i = key_index(m, key);
        let c = if m[i].1 + cost > u64::MAX {
            u64::MAX as nat
        } else {
            (m[i].1 + cost) as nat
        };
        let n = if m[i].2 + 1 > u32::MAX {
            u32::MAX as nat
        } else {
            (m[i].2 + 1) as nat
        };
        m.update(i, (key, c, n))
    } else {
        m.push((key, cost, 1nat))
    }
}

/// Find the entry with this date, or the length when there is none.
#[verifier::rlimit(30)]
fn find_date_key(m: &Vec<DailyCost>, key: &String) -> (idx: usize)
    ensures
        idx == key_index(dc_model(m@), key@),
{
    let ghost model = dc_model(m@);
    proof {
        assert(model.len() == m@.len());
    }
    let len = m.len();
    let mut i: usize = 0;
    proof {
        assert(model.skip(0) =~= model);
    }
    while i < len
        invariant
            len == m@.len(),
            model == dc_model(m@),
            model.len() == len,
            i <= len,
            key_index(model, key@) == i + key_index(model.skip(i as int), key@),
            forall|j: int| 0 <= j < i ==> model[j].0 != key@,
        decreases len - i,
    {
        proof {
            assert(model.skip(i as int)[0] == model[i as int]);
            assert(model.skip(i as int).drop_first() =~= model.skip(i as int + 1));
        }
        if m[i].date.eq(key) {
            proof {
                lemma_key_index(model.skip(i as int), key@);
            }
            return i;
        }
        i = i + 1;
    }
    proof {
        assert(model.skip(len as int) =~= Seq::<(Seq<char>, nat, nat)>::empty());
    }
    len
}

fn upsert_overwrite_vec(m: &mut Vec<DailyCost>, date: String, cost: u64)
    ensures
        dc_model(final(m)@) == upsert_overwrite(dc_model(old(m)@), date@, cost as nat),
{
    let ghost model = dc_model(m@);
    let idx = find_date_key(m, &date);
    proof {
        lemma_key_index(model, date@);
    }
    let entry = DailyCost { date, cost_micro: cost, sessions: 1 };
    if idx < m.len() {
        m.remove(idx);
        m.insert(idx, entry);
        proof {
            assert(dc_model(m@) =~~= model.update(idx as int, (entry.date@, cost as nat, 1nat)));
        }
    } else {
        m.push(entry);
        proof {
            assert(dc_model(m@) =~~= model.push((entry.date@, cost as nat, 1nat)));
        }
    }
}

fn upsert_merge_vec(m: &mut Vec<DailyCost>, date: String, cost: u64)
    ensures
        dc_model(final(m)@) == upsert_merge(dc_model(old(m)@), date@, cost as nat),
{
    let ghost model = dc_model(m@);
    let idx = find_date_key(m, &date);
    proof {
        lemma_key_index(model, date@);
    }
    if idx < m.len() {
        let old_cost = m[idx].cost_micro;
        let old_sessions = m[idx].sessions;
        let entry = DailyCost {
            date,
            cost_micro: old_cost.saturating_add(cost),
            sessions: old_sessions.saturating_add(1),
        };
        m.remove(idx);
        m.insert(idx, entry);
        proof {
            assert(dc_model(m@) =~~= upsert_merge(model, entry.date@, cost as nat));
        }
    } else {
        m.push(DailyCost { date, cost_micro: cost, sessions: 1 });
        proof {
            let e = m@[m@.len() - 1];
            assert(dc_model(m@) =~~= model.push((e.date@, cost as nat, 1nat)));
        }
    }
}

} // verus!

verus! {

/// A data row of the daily table: has a column separator and is neither the
/// header, the totals row, nor a rule line.
pub open spec fn is_daily_data_line(line: Seq<char>) -> bool {
    line.contains('│') && !contains_seq(line, "Date"@) && !contains_seq(line, "Total"@)
        && !line.contains('─') && !line.contains('═')
}

/// A year alone, as the daily table's split date column shows it.
pub open spec fn is_year_cell(s: Seq<char>) -> bool {
    s.len() == 4 && is_digit(s[0]) && is_digit(s[1]) && is_digit(s[2]) && is_digit(s[3])
}

/// A month-day pair `MM-DD`.
pub open spec fn is_month_day_cell(s: Seq<char>) -> bool {
    s.len() == 5 && is_digit(s[0]) && is_digit(s[1]) && s[2] == '-' && is_digit(s[3]) && is_digit(
        s[4],
    )
}

/// What row `i` of the daily table contributes: a year row whose cost column
/// holds a dollar amount, paired with the `MM-DD` date column of the next row.
pub open spec fn daily_pair_at(ls: Seq<Seq<char>>, i: int) -> Option<(Seq<char>, nat)> {
    let line = ls[i];
    let cells = split_on(line, '│');
    if is_daily_data_line(line) && cells.len() >= 9 && is_year_cell(clean_cell(cells[1]))
        && find_cost_micro(clean_cell(cells[8])) is Some && i + 1 < ls.len() && ls[i
        + 1].contains('│') {
        let cells2 = split_on(ls[i + 1], '│');
        if cells2.len() >= 9 && is_month_day_cell(clean_cell(cells2[1])) {
            Some((clean_cell(cells2[1]), find_cost_micro(clean_cell(cells[8]))->0))
        } else {
            None
        }
    } else {
        None
    }
}

/// The daily map after the first `n` rows, later year rows overwriting earlier
/// entries for the same day.
pub open spec fn daily_map_upto(ls: Seq<Seq<char>>, n: int) -> Seq<(Seq<char>, nat, nat)>
    decreases n,
{
    if n <= 0 {
        Seq::empty()
    } else {
        let prev = daily_map_upto(ls, n - 1);
        match daily_pair_at(ls, n - 1) {
            Some(p) => upsert_overwrite(prev, p.0, p.1),
            None => prev,
        }
    }
}

/// The date-to-cost map that the daily report's table yields.
pub open spec fn daily_table_costs(text: Seq<char>) -> Seq<(Seq<char>, nat, nat)> {
    let ls = split_on(text, '\n');
    daily_map_upto(ls, ls.len() as int)
}

fn check_daily_data_line(line: &Vec<char>) -> (r: bool)
    ensures
        r == is_daily_data_line(line@),
{
    let n_date = chars_of_str("Date");
    let n_total = chars_of_str("Total");
    contains_char(line, '│') && !contains_sub(line, &n_date) && !contains_sub(line, &n_total)
        && !contains_char(line, '─') && !contains_char(line, '═')
}

fn check_year_cell(v: &Vec<char>) -> (r: bool)
    ensures
        r == is_year_cell(v@),
{
    v.len() == 4 && check_digit(v[0]) && check_digit(v[1]) && check_digit(v[2]) && check_digit(
        v[3],
    )
}

fn check_month_day_cell(v: &Vec<char>) -> (r: bool)
    ensures
        r == is_month_day_cell(v@),
{
    v.len() == 5 && check_digit(v[0]) && check_digit(v[1]) && v[2] == '-' && check_digit(v[3])
        && check_digit(v[4])
}

fn daily_row_pair(lines: &Vec<Vec<char>>, i: usize) -> (r: Option<(Vec<char>, u64)>)
    requires
        i < lines@.len(),
    ensures
        match r {
            Some(p) => daily_pair_at(lines.deep_view(), i as int) == Some((p.0@, p.1 as nat))
                && p.1 < 10000000000000000000,
            None => daily_pair_at(lines.deep_view(), i as int) is None,
        },
{
    let ghost ls = lines.deep_view();
    let line = &lines[i];
    proof {
        assert(line@ =~= ls[i as int]);
    }
    if !check_daily_data_line(line) {
        return None;
    }
    let cells = split_chars(line, '│');
    let ghost cs = split_on(ls[i as int], '│');
    proof {
        assert(cells.deep_view() == cs);
        assert(cells@.len() == cs.len());
    }
    if cells.len() < 9 {
        return None;
    }
    proof {
        assert(cells@[1]@ =~= cs[1]);
        assert(cells@[8]@ =~= cs[8]);
    }
    let date_cell = clean_cell_chars(&cells[1]);
    if !check_year_cell(&date_cell) {
        return None;
    }
    let cost_cell = clean_cell_chars(&cells[8]);
    let cost = match parse_cost_micro(&cost_cell) {
        Some(c) => c,
        None => {
            return None;
        },
    };
    let n_lines = lines.len();
    if n_lines - i <= 1 {
        return None;
    }
    let line2 = &lines[i + 1];
    proof {
        assert(line2@ =~= ls[i as int + 1]);
    }
    if !contains_char(line2, '│') {
        return None;
    }
    let cells2 = split_chars(line2, '│');
    let ghost cs2 = split_on(ls[i as int + 1], '│');
    proof {
        assert(cells2.deep_view() == cs2);
        assert(cells2@.len() == cs2.len());
    }
    if cells2.len() < 9 {
        return None;
    }
    proof {
        assert(cells2@[1]@ =~= cs2[1]);
    }
    let md = clean_cell_chars(&cells2[1]);
    if !check_month_day_cell(&md) {
        return None;
    }
    Some((md, cost))
}

/// Parse the daily report's table into per-day costs; a year row carrying the
/// cost is paired with the `MM-DD` of the row under it, and a repeated day
/// keeps only the last row's cost, with a session count of one.
pub fn parse_daily_output(text: &str) -> (r: Vec<DailyCost>)
    ensures
        dc_model(r@) == daily_table_costs(text@),
{
    let chars = chars_of_str(text);
    let lines = split_chars(&chars, '\n');
    let ghost ls = split_on(text@, '\n');
    let mut acc: Vec<DailyCost> = Vec::new();
    let mut i: usize = 0;
    proof {
        assert(dc_model(acc@) =~~= daily_map_upto(ls, 0));
    }
    let n = lines.len();
    while i < n
        invariant
            lines.deep_view() == ls,
            n == lines@.len(),
            n == ls.len(),
            i <= n,
            dc_model(acc@) == daily_map_upto(ls, i as int),
        decreases n - i,
    {
        match daily_row_pair(&lines, i) {
            Some(p) => {
                let key = string_of_chars(&p.0);
                upsert_overwrite_vec(&mut acc, key, p.1);
            },
            None => {},
        }
        i = i + 1;
    }
    acc
}

/// A data row of the blocks table: has a column separator and is neither a
/// gap, a projection, nor the header.
pub open spec fn is_blocks_data_line(line: Seq<char>) -> bool {
    line.contains('│') && !contains_seq(line, "gap"@) && !contains_seq(line, "PROJECTED"@)
        && !contains_seq(line, "Block Start"@)
}

/// What a row of the blocks table contributes: the first date token of the
/// session column, normalized to `MM/DD`, and the cost column's number; rows
/// whose cost cell is the `-` placeholder or whose date is no calendar date
/// yield nothing.
pub open spec fn blocks_pair_at(line: Seq<char>) -> Option<(Seq<char>, nat)> {
    let cells = split_on(line, '│');
    if is_blocks_data_line(line) && cells.len() >= 6 {
        let info = clean_cell(cells[1]);
        let cost_cell = clean_cell(cells[5]);
        if cost_cell != seq!['-'] && find_number_micro(cost_cell) is Some && find_date(
            info,
        ) is Some {
            let ymd = find_date(info)->0;
            if valid_date(ymd.0 as int, ymd.1 as int, ymd.2 as int) {
                Some((mmdd_chars(ymd.1, ymd.2), find_number_micro(cost_cell)->0))
            } else {
                None
            }
        } else {
            None
        }
    } else {
        None
    }
}

/// The blocks map after the first `n` rows, a repeated day summing costs and
/// counting sessions.
pub open spec fn blocks_map_upto(ls: Seq<Seq<char>>, n: int) -> Seq<(Seq<char>, nat, nat)>
    decreases n,
{
    if n <= 0 {
        Seq::empty()
    } else {
        let prev = blocks_map_upto(ls, n - 1);
        match blocks_pair_at(ls[n - 1]) {
            Some(p) => upsert_merge(prev, p.0, p.1),
            None => prev,
        }
    }
}

/// The date-to-cost map that the blocks report's table yields.
pub open spec fn blocks_table_costs(text: Seq<char>) -> Seq<(Seq<char>, nat, nat)> {
    let ls = split_on(text, '\n');
    blocks_map_upto(ls, ls.len() as int)
}

fn check_blocks_data_line(line: &Vec<char>) -> (r: bool)
    ensures
        r == is_blocks_data_line(line@),
{
    let n_gap = chars_of_str("gap");
    let n_proj = chars_of_str("PROJECTED");
    let n_start = chars_of_str("Block Start");
    contains_char(line, '│') && !contains_sub(line, &n_gap) && !contains_sub(line, &n_proj)
        && !contains_sub(line, &n_start)
}

fn blocks_row_pair(line: &Vec<char>) -> (r: Option<(Vec<char>, u64)>)
    ensures
        match r {
            Some(p) => blocks_pair_at(line@) == Some((p.0@, p.1 as nat)) && p.1
                < 10000000000000000000,
            None => blocks_pair_at(line@) is None,
        },
{
    if !check_blocks_data_line(line) {
        return None;
    }
    let cells = split_chars(line, '│');
    let ghost cs = split_on(line@, '│');
    proof {
        assert(cells.deep_view() == cs);
        assert(cells@.len() == cs.len());
    }
    if cells.len() < 6 {
        return None;
    }
    proof {
        assert(cells@[1]@ =~= cs[1]);
        assert(cells@[5]@ =~= cs[5]);
    }
    let info = clean_cell_chars(&cells[1]);
    let cost_cell = clean_cell_chars(&cells[5]);
    if cost_cell.len() == 1 && cost_cell[0] == '-' {
        proof {
            assert(cost_cell@ =~= seq!['-']);
        }
        return None;
    }
    proof {
        assert(cost_cell@ != seq!['-']);
    }
    let cost = match parse_number_micro(&cost_cell) {
        Some(c) => c,
        None => {
            return None;
        },
    };
    let (y, m, d) = match scan_date(&info) {
        Some(ymd) => ymd,
        None => {
            return None;
        },
    };
    if !check_valid_date(y, m, d) {
        return None;
    }
    let key = mmdd_key(m, d);
    Some((key, cost))
}

/// Parse the blocks report's table into per-day costs, summing repeated days.
pub fn parse_blocks_output(text: &str) -> (r: Vec<DailyCost>)
    ensures
        dc_model(r@) == blocks_table_costs(text@),
{
    let chars = chars_of_str(text);
    let lines = split_chars(&chars, '\n');
    let ghost ls = split_on(text@, '\n');
    let mut acc: Vec<DailyCost> = Vec::new();
    let mut i: usize = 0;
    proof {
        assert(dc_model(acc@) =~~= blocks_map_upto(ls, 0));
    }
    let n = lines.len();
    while i < n
        invariant
            lines.deep_view() == ls,
            n == lines@.len(),
            n == ls.len(),
            i <= n,
            dc_model(acc@) == blocks_map_upto(ls, i as int),
        decreases n - i,
    {
        proof {
            assert(lines@[i as int]@ =~= ls[i as int]);
        }
        match blocks_row_pair(&lines[i]) {
            Some(p) => {
                let key = string_of_chars(&p.0);
                upsert_merge_vec(&mut acc, key, p.1);
            },
            None => {},
        }
        i = i + 1;
    }
    acc
}

/// Reduce the two report tables to one map: the daily table where it yields
/// any rows, else the blocks table.
pub fn analyze_daily_costs(daily_text: &str, blocks_text: &str) -> (r: Vec<DailyCost>)
    ensures
        daily_table_costs(daily_text@).len() > 0 ==> dc_model(r@) == daily_table_costs(
            daily_text@,
        ),
        daily_table_costs(daily_text@).len() == 0 ==> dc_model(r@) == blocks_table_costs(
            blocks_text@,
        ),
{
    let daily = parse_daily_output(daily_text);
    if daily.len() > 0 {
        proof {
            assert(dc_model(daily@).len() == daily@.len());
        }
        daily
    } else {
        proof {
            assert(dc_model(daily@).len() == daily@.len());
        }
        parse_blocks_output(blocks_text)
    }
}

} // verus!

verus! {

/// Each date key names at most one entry.
pub open spec fn keys_unique(m: Seq<(Seq<char>, nat, nat)>) -> bool {
    forall|i: int, j: int| 0 <= i < j < m.len() ==> (#[trigger] m[i]).0 != (#[trigger] m[j]).0
}

proof fn lemma_upsert_overwrite_unique(m: Seq<(Seq<char>, nat, nat)>, key: Seq<char>, cost: nat)
    requires
        keys_unique(m),
    ensures
        keys_unique(upsert_overwrite(m, key, cost)),
{
    lemma_key_index(m, key);
    let r = upsert_overwrite(m, key, cost);
    if has_key(m, key) {
        let k = key_index(m, key);
        assert forall|i: int, j: int| 0 <= i < j < r.len() implies (#[trigger] r[i]).0 != (
        #[trigger] r[j]).0 by {
            assert(m[k].0 == key);
        }
    } else {
        assert forall|i: int, j: int| 0 <= i < j < r.len() implies (#[trigger] r[i]).0 != (
        #[trigger] r[j]).0 by {
            if j == r.len() - 1 {
                assert(m[i].0 != key);
            }
        }
    }
}

proof fn lemma_upsert_merge_unique(m: Seq<(Seq<char>, nat, nat)>, key: Seq<char>, cost: nat)
    requires
        keys_unique(m),
    ensures
        keys_unique(upsert_merge(m, key, cost)),
{
    lemma_key_index(m, key);
    let r = upsert_merge(m, key, cost);
    if has_key(m, key) {
        let k = key_index(m, key);
        assert forall|i: int, j: int| 0 <= i < j < r.len() implies (#[trigger] r[i]).0 != (
        #[trigger] r[j]).0 by {
            assert(m[k].0 == key);
        }
    } else {
        assert forall|i: int, j: int| 0 <= i < j < r.len() implies (#[trigger] r[i]).0 != (
        #[trigger] r[j]).0 by {
            if j == r.len() - 1 {
                assert(m[i].0 != key);
            }
        }
    }
}

/// The daily table's map carries each date at most once.
pub proof fn lemma_daily_costs_unique(text: Seq<char>)
    ensures
        keys_unique(daily_table_costs(text)),
{
    let ls = split_on(text, '\n');
    lemma_daily_map_unique(ls, ls.len() as int);
}

proof fn lemma_daily_map_unique(ls: Seq<Seq<char>>, n: int)
    ensures
        keys_unique(daily_map_upto(ls, n)),
    decreases n,
{
    if n > 0 {
        lemma_daily_map_unique(ls, n - 1);
        match daily_pair_at(ls, n - 1) {
            Some(p) => {
                lemma_upsert_overwrite_unique(daily_map_upto(ls, n - 1), p.0, p.1);
            },
            None => {},
        }
    }
}

/// The blocks table's map carries each date at most once.
pub proof fn lemma_blocks_costs_unique(text: Seq<char>)
    ensures
        keys_unique(blocks_table_costs(text)),
{
    let ls = split_on(text, '\n');
    lemma_blocks_map_unique(ls, ls.len() as int);
}

proof fn lemma_blocks_map_unique(ls: Seq<Seq<char>>, n: int)
    ensures
        keys_unique(blocks_map_upto(ls, n)),
    decreases n,
{
    if n > 0 {
        lemma_blocks_map_unique(ls, n - 1);
        match blocks_pair_at(ls[n - 1]) {
            Some(p) => {
                lemma_upsert_merge_unique(blocks_map_upto(ls, n - 1), p.0, p.1);
            },
            None => {},
        }
    }
}

} // verus!

use vstd::prelude::*;
use vstd::string::StringExecFns;
use crate::text::{
    chars_of_str, contains_seq, contains_sub, dec_digits, cost_display_spec, cost_display,
    find_number_micro, hm_label_spec, hm_label, parse_number_micro, string_of_chars, u64_to_chars,
};

verus! {

/// Where the latest billing block stands.
#[derive(Clone, Copy, PartialEq, Eq, Structural, Debug)]
pub enum SessionStatus {
    Unknown,
    Active,
    Completed,
}

/// A display-ready snapshot of the accounting tool's latest billing block.
/// Costs are carried in millionths of a dollar; instants in epoch
/// milliseconds.
#[derive(Clone, Debug)]
pub struct CcusageData {
    pub latest_session: String,
    pub session_start: String,
    pub session_end: String,
    pub remaining_time: String,
    pub tokens: String,
    pub cost: String,
    pub status: SessionStatus,
    pub model: String,
    pub tokens_num: i64,
    pub cost_micro: u64,
    pub reset_time: Option<i64>,
}

/// The empty snapshot: what a pass publishes when the tool cannot be run or
/// its output cannot be read.
pub open spec fn is_empty_snapshot(d: CcusageData) -> bool {
    &&& d.latest_session@ == Seq::<char>::empty()
    &&& d.session_start@ == Seq::<char>::empty()
    &&& d.session_end@ == Seq::<char>::empty()
    &&& d.remaining_time@ == Seq::<char>::empty()
    &&& d.tokens@ == Seq::<char>::empty()
    &&& d.cost@ == Seq::<char>::empty()
    &&& d.status == SessionStatus::Unknown
    &&& d.model@ == Seq::<char>::empty()
    &&& d.tokens_num == 0
    &&& d.cost_micro == 0
    &&& d.reset_time is None
}

impl Default for CcusageData {
    fn default() -> (r: Self)
        ensures
            is_empty_snapshot(r),
    {
        CcusageData {
            latest_session: String::new(),
            session_start: String::new(),
            session_end: String::new(),
            remaining_time: String::new(),
            tokens: String::new(),
            cost: String::new(),
            status: SessionStatus::Unknown,
            model: String::new(),
            tokens_num: 0,
            cost_micro: 0,
            reset_time: None,
        }
    }
}

/// The client of the usage-accounting command: the cached launcher path and
/// the consecutive-failure counter with its threshold.
pub struct CcusageMonitor {
    pub npx_path: Option<String>,
    pub failed_count: u32,
    pub max_failures: u32,
}

impl Default for CcusageMonitor {
    fn default() -> (r: Self)
        ensures
            r.npx_path is None,
            r.failed_count == 0,
            r.max_failures == 3,
    {
        Self::new()
    }
}

impl CcusageMonitor {
    /// A fresh client: no launcher resolved yet, no failures seen, and the
    /// self-update threshold at three.
    pub fn new() -> (r: Self)
        ensures
            r.npx_path is None,
            r.failed_count == 0,
            r.max_failures == 3,
    {
        CcusageMonitor { npx_path: None, failed_count: 0, max_failures: 3 }
    }

    /// Remember the launcher path that discovery found.
    pub fn set_npx_path(&mut self, path: Option<String>)
        ensures
            final(self).npx_path == path,
            final(self).failed_count == old(self).failed_count,
            final(self).max_failures == old(self).max_failures,
    {
        self.npx_path = path;
    }

    /// The expensive recomputing mode is used only when no failure is pending
    /// and the wall clock stands exactly on a minute.
    pub fn choose_calculate_mode(&self, epoch_secs: i64) -> (r: bool)
        ensures
            r == (self.failed_count == 0 && epoch_secs % 60 == 0),
    {
        self.failed_count == 0 && epoch_secs % 60 == 0
    }

    /// A successful invocation clears the failure counter.
    pub fn on_invocation_success(&mut self)
        ensures
            final(self).failed_count == 0,
            final(self).npx_path == old(self).npx_path,
            final(self).max_failures == old(self).max_failures,
    {
        self.failed_count = 0;
    }

    /// A failed invocation counts; reaching the threshold asks for one
    /// self-update of the tool and clears the counter.
    pub fn on_invocation_failure(&mut self) -> (self_update: bool)
        ensures
            final(self).npx_path == old(self).npx_path,
            final(self).max_failures == old(self).max_failures,
            (final(self).failed_count as nat, self_update) == failure_step(
                old(self).failed_count as nat,
                old(self).max_failures as nat,
            ),
            self_update == (old(self).failed_count + 1 >= old(self).max_failures),
            self_update ==> final(self).failed_count == 0,
            !self_update ==> final(self).failed_count == old(self).failed_count + 1,
    {
        if self.failed_count as u64 + 1 >= self.max_failures as u64 {
            self.failed_count = 0;
            true
        } else {
            self.failed_count = self.failed_count + 1;
            false
        }
    }
}

/// What one failed invocation does to the consecutive-failure counter: count
/// it, and at the threshold ask for a self-update and start over.
pub open spec fn failure_step(failed: nat, max: nat) -> (nat, bool) {
    if failed + 1 >= max {
        (0nat, true)
    } else {
        ((failed + 1) as nat, false)
    }
}

/// From a clear counter at the default threshold of three, three straight
/// failures ask for the self-update exactly at the third, and leave the
/// counter clear again.
pub proof fn lemma_third_failure_updates()
    ensures
        ({
            let s1 = failure_step(0, 3);
            let s2 = failure_step(s1.0, 3);
            let s3 = failure_step(s2.0, 3);
            !s1.1 && !s2.1 && s3.1 && s3.0 == 0
        }),
{
}

/// The argument lists of the three tool invocations.
pub open spec fn blocks_args_spec(calculate: bool) -> Seq<Seq<char>> {
    if calculate {
        seq!["--yes"@, "ccusage@latest"@, "blocks"@, "--mode"@, "calculate"@, "--json"@]
    } else {
        seq!["--yes"@, "ccusage@latest"@, "blocks"@, "--json"@]
    }
}

pub open spec fn daily_args_spec() -> Seq<Seq<char>> {
    seq!["--yes"@, "ccusage@latest"@, "daily"@, "--order"@, "asc"@]
}

pub open spec fn blocks_table_args_spec() -> Seq<Seq<char>> {
    seq!["--yes"@, "ccusage@latest"@, "blocks"@]
}

pub open spec fn update_args_spec() -> Seq<Seq<char>> {
    seq!["--yes"@, "ccusage@latest"@, "--version"@]
}

/// Arguments of the JSON blocks query, with or without the recomputing mode.
pub fn blocks_args(calculate: bool) -> (r: Vec<String>)
    ensures
        r.deep_view() == blocks_args_spec(calculate),
{
    let mut v: Vec<String> = Vec::new();
    v.push(String::from_str("--yes"));
    v.push(String::from_str("ccusage@latest"));
    v.push(String::from_str("blocks"));
    if calculate {
        v.push(String::from_str("--mode"));
        v.push(String::from_str("calculate"));
    }
    v.push(String::from_str("--json"));
    proof {
        assert(v.deep_view() =~~= blocks_args_spec(calculate));
    }
    v
}

/// Arguments of the daily text-table query.
pub fn daily_args() -> (r: Vec<String>)
    ensures
        r.deep_view() == daily_args_spec(),
{
    let mut v: Vec<String> = Vec::new();
    v.push(String::from_str("--yes"));
    v.push(String::from_str("ccusage@latest"));
    v.push(String::from_str("daily"));
    v.push(String::from_str("--order"));
    v.push(String::from_str("asc"));
    proof {
        assert(v.deep_view() =~~= daily_args_spec());
    }
    v
}

/// Arguments of the blocks text-table query.
pub fn blocks_table_args() -> (r: Vec<String>)
    ensures
        r.deep_view() == blocks_table_args_spec(),
{
    let mut v: Vec<String> = Vec::new();
    v.push(String::from_str("--yes"));
    v.push(String::from_str("ccusage@latest"));
    v.push(String::from_str("blocks"));
    proof {
        assert(v.deep_view() =~~= blocks_table_args_spec());
    }
    v
}

/// Arguments of the tool's self-update.
pub fn update_args() -> (r: Vec<String>)
    ensures
        r.deep_view() == update_args_spec(),
{
    let mut v: Vec<String> = Vec::new();
    v.push(String::from_str("--yes"));
    v.push(String::from_str("ccusage@latest"));
    v.push(String::from_str("--version"));
    proof {
        assert(v.deep_view() =~~= update_args_spec());
    }
    v
}

/// The canonical short name of a raw model id.
pub open spec fn canon_model(m: Seq<char>) -> Seq<char> {
    if contains_seq(m, "opus"@) {
        "opus-4"@
    } else if contains_seq(m, "sonnet"@) {
        "sonnet-4"@
    } else if contains_seq(m, "haiku"@) {
        "haiku-3"@
    } else {
        m
    }
}

/// Canonical names of the raw ids, first occurrences only, in order.
pub open spec fn canon_dedup(ms: Seq<Seq<char>>, n: int) -> Seq<Seq<char>>
    decreases n,
{
    if n <= 0 {
        Seq::empty()
    } else {
        let prev = canon_dedup(ms, n - 1);
        let c = canon_model(ms[n - 1]);
        if prev.contains(c) {
            prev
        } else {
            prev.push(c)
        }
    }
}

/// Comma-joined list.
pub open spec fn join_comma(xs: Seq<Seq<char>>) -> Seq<char>
    decreases xs.len(),
{
    if xs.len() == 0 {
        Seq::empty()
    } else if xs.len() == 1 {
        xs[0]
    } else {
        join_comma(xs.drop_last()) + ", "@ + xs.last()
    }
}

/// The display list of a block's models: canonical names, de-duplicated,
/// comma-joined.
pub open spec fn model_list_spec(ms: Seq<Seq<char>>) -> Seq<char> {
    join_comma(canon_dedup(ms, ms.len() as int))
}

fn canon_model_exec(m: &String) -> (r: String)
    ensures
        r@ == canon_model(m@),
{
    let chars = chars_of_str(m.as_str());
    let n_opus = chars_of_str("opus");
    let n_sonnet = chars_of_str("sonnet");
    let n_haiku = chars_of_str("haiku");
    if contains_sub(&chars, &n_opus) {
        String::from_str("opus-4")
    } else if contains_sub(&chars, &n_sonnet) {
        String::from_str("sonnet-4")
    } else if contains_sub(&chars, &n_haiku) {
        String::from_str("haiku-3")
    } else {
        m.clone()
    }
}

fn string_list_contains(xs: &Vec<String>, x: &String) -> (r: bool)
    ensures
        r == xs.deep_view().contains(x@),
{
    let n = xs.len();
    let mut i: usize = 0;
    while i < n
        invariant
            n == xs@.len(),
            i <= n,
            forall|j: int| 0 <= j < i ==> xs.deep_view()[j] != x@,
        decreases n - i,
    {
        proof {
            assert(xs.deep_view()[i as int] == xs@[i as int]@);
        }
        if xs[i].eq(x) {
            proof {
                assert(xs.deep_view()[i as int] == x@);
            }
            return true;
        }
        i = i + 1;
    }
    proof {
        assert forall|j: int| 0 <= j < xs.deep_view().len() implies xs.deep_view()[j] != x@ by {}
        assert(!xs.deep_view().contains(x@));
    }
    false
}

/// Build the display list of a block's models.
pub fn model_list(ms: &Vec<String>) -> (r: String)
    ensures
        r@ == model_list_spec(ms.deep_view()),
{
    let n = ms.len();
    let mut names: Vec<String> = Vec::new();
    let mut i: usize = 0;
    proof {
        assert(names.deep_view() =~~= canon_dedup(ms.deep_view(), 0));
    }
    while i < n
        invariant
            n == ms@.len(),
            i <= n,
            names.deep_view() == canon_dedup(ms.deep_view(), i as int),
        decreases n - i,
    {
        proof {
            assert(ms.deep_view()[i as int] == ms@[i as int]@);
        }
        let c = canon_model_exec(&ms[i]);
        if !string_list_contains(&names, &c) {
            let ghost before = names.deep_view();
            names.push(c);
            proof {
                assert(names.deep_view() =~~= before.push(names@[names@.len() - 1]@));
            }
        }
        i = i + 1;
    }
    let mut out: Vec<char> = Vec::new();
    let mut j: usize = 0;
    let ghost xs = names.deep_view();
    let k = names.len();
    while j < k
        invariant
            k == names@.len(),
            xs == names.deep_view(),
            j <= k,
            out@ == join_comma(xs.subrange(0, j as int)),
        decreases k - j,
    {
        proof {
            assert(xs[j as int] == names@[j as int]@);
        }
        if j > 0 {
            out.push(',');
            out.push(' ');
        }
        let part = chars_of_str(names[j].as_str());
        let mut t: usize = 0;
        let ghost out_before = out@;
        while t < part.len()
            invariant
                t <= part@.len(),
                part@ == xs[j as int],
                out@ =~= out_before + part@.subrange(0, t as int),
            decreases part@.len() - t,
        {
            out.push(part[t]);
            t = t + 1;
        }
        proof {
            reveal_strlit(", ");
            let pre = xs.subrange(0, j as int);
            let cur = xs.subrange(0, j as int + 1);
            assert(cur.drop_last() =~= pre);
            assert(cur.last() == xs[j as int]);
            assert(part@.subrange(0, part@.len() as int) =~= part@);
            if j == 0 {
                assert(out@ =~= join_comma(cur));
            } else {
                assert(out@ =~= join_comma(pre) + ", "@ + xs[j as int]);
                assert(out@ =~= join_comma(cur));
            }
        }
        j = j + 1;
    }
    proof {
        assert(xs.subrange(0, xs.len() as int) =~= xs);
    }
    string_of_chars(&out)
}

} // verus!

verus! {

/// Cost read from a number's text: its first number, or zero when there is
/// none or the text is absent.
pub open spec fn cost_micro_of_text(t: Option<Seq<char>>) -> nat {
    match t {
        Some(s) => match find_number_micro(s) {
            Some(c) => c,
            None => 0,
        },
        None => 0,
    }
}

/// The remaining-time label of an active block: the projection's own minutes
/// when given, else the time to the block's end, else `expired`.
pub open spec fn remaining_label_spec(
    end_ms: int,
    now_ms: int,
    remaining_minutes: Option<u64>,
) -> Seq<char> {
    match remaining_minutes {
        Some(m) => hm_label_spec((m as nat) / 60, (m as nat) % 60),
        None => if end_ms > now_ms {
            hm_label_spec(
                (((end_ms - now_ms) / 3600000)) as nat,
                ((((end_ms - now_ms) / 60000)) % 60) as nat,
            )
        } else {
            "expired"@
        },
    }
}

/// A block lasts five hours.
pub open spec fn block_ms() -> int {
    18000000
}

fn cost_from_text(cost_text: &Option<String>) -> (r: u64)
    ensures
        r as nat == cost_micro_of_text(
            match cost_text {
                Some(t) => Some(t@),
                None => None,
            },
        ),
        r < 10000000000000000000,
{
    match cost_text {
        Some(t) => {
            let chars = chars_of_str(t.as_str());
            match parse_number_micro(&chars) {
                Some(c) => c,
                None => 0,
            }
        },
        None => 0,
    }
}

fn model_field(models: &Option<Vec<String>>) -> (r: String)
    ensures
        r@ == (match models {
            Some(ms) => model_list_spec(ms.deep_view()),
            None => "--"@,
        }),
{
    match models {
        Some(ms) => model_list(ms),
        None => String::from_str("--"),
    }
}

fn clock_or_dashes(ms: i64) -> (r: String)
    ensures
        r@.len() == 8 || r@ == "--"@,
{
    match crate::clock::format_clock_hms(ms) {
        Some(s) => s,
        None => String::from_str("--"),
    }
}

fn stamp_or_dashes(ms: i64) -> (r: String)
    ensures
        r@.len() >= 23 || r@ == "--"@,
{
    match crate::clock::format_session_stamp(ms) {
        Some(s) => s,
        None => String::from_str("--"),
    }
}

fn remaining_label(end_ms: i64, now_ms: i64, remaining_minutes: Option<u64>) -> (r: String)
    requires
        -600000000000000000 <= end_ms <= 600000000000000000,
        -300000000000000000 <= now_ms <= 300000000000000000,
    ensures
        r@ == remaining_label_spec(end_ms as int, now_ms as int, remaining_minutes),
{
    match remaining_minutes {
        Some(m) => hm_label(m / 60, m % 60),
        None => {
            if end_ms > now_ms {
                let diff = end_ms - now_ms;
                let hours = (diff / 3600000) as u64;
                let mins = ((diff / 60000) % 60) as u64;
                hm_label(hours, mins)
            } else {
                String::from_str("expired")
            }
        },
    }
}

/// Put together the snapshot of an active block. The block ends five hours
/// after its start; the remaining time prefers the projection's minutes; the
/// displayed clock times depend on the machine's time zone, `--` standing in
/// where the start is unknown or out of range.
pub fn assemble_active_data(
    start_ms: Option<i64>,
    remaining_minutes: Option<u64>,
    total_tokens: u64,
    cost_text: Option<String>,
    models: Option<Vec<String>>,
    now_ms: i64,
) -> (r: CcusageData)
    requires
        start_ms matches Some(s) ==> -300000000000000000 <= s <= 300000000000000000,
        -300000000000000000 <= now_ms <= 300000000000000000,
    ensures
        r.status == SessionStatus::Active,
        r.tokens_num == total_tokens as i64,
        r.tokens@ == dec_digits(total_tokens as nat),
        r.cost_micro as nat == cost_micro_of_text(
            match cost_text {
                Some(t) => Some(t@),
                None => None,
            },
        ),
        r.cost@ == cost_display_spec(r.cost_micro as nat),
        r.model@ == (match models {
            Some(ms) => model_list_spec(ms.deep_view()),
            None => "--"@,
        }),
        start_ms matches Some(s) ==> r.reset_time == Some((s + block_ms()) as i64),
        start_ms is None ==> r.reset_time is None,
        start_ms matches Some(s) ==> r.remaining_time@ == remaining_label_spec(
            s + block_ms(),
            now_ms as int,
            remaining_minutes,
        ),
        start_ms is None ==> r.remaining_time@ == "--"@ && r.session_start@ == "--"@
            && r.session_end@ == "--"@ && r.latest_session@ == "--"@,
        r.session_start@.len() == 8 || r.session_start@ == "--"@,
        r.session_end@.len() == 8 || r.session_end@ == "--"@,
        r.latest_session@.len() >= 23 || r.latest_session@ == "--"@,
{
    let cost_micro = cost_from_text(&cost_text);
    let cost = cost_display(cost_micro);
    let model = model_field(&models);
    let tokens = {
        let v = u64_to_chars(total_tokens);
        string_of_chars(&v)
    };
    let tokens_num: i64 = #[verifier::truncate] (total_tokens as i64);
    match start_ms {
        Some(s) => {
            let end = s + 18000000;
            CcusageData {
                latest_session: stamp_or_dashes(s),
                session_start: clock_or_dashes(s),
                session_end: clock_or_dashes(end),
                remaining_time: remaining_label(end, now_ms, remaining_minutes),
                tokens,
                cost,
                status: SessionStatus::Active,
                model,
                tokens_num,
                cost_micro,
                reset_time: Some(end),
            }
        },
        None => {
            CcusageData {
                latest_session: String::from_str("--"),
                session_start: String::from_str("--"),
                session_end: String::from_str("--"),
                remaining_time: String::from_str("--"),
                tokens,
                cost,
                status: SessionStatus::Active,
                model,
                tokens_num,
                cost_micro,
                reset_time: None,
            }
        },
    }
}

/// Put together the snapshot of a completed block: the end is the reported
/// actual end when there is one, else five hours past the start; there is no
/// reset time and the remaining label reads `completed`.
pub fn assemble_completed_data(
    start_ms: Option<i64>,
    actual_end_ms: Option<i64>,
    total_tokens: u64,
    cost_text: Option<String>,
    models: Option<Vec<String>>,
) -> (r: CcusageData)
    requires
        start_ms matches Some(s) ==> -300000000000000000 <= s <= 300000000000000000,
        actual_end_ms matches Some(e) ==> -300000000000000000 <= e <= 300000000000000000,
    ensures
        r.status == SessionStatus::Completed,
        r.tokens_num == total_tokens as i64,
        r.tokens@ == dec_digits(total_tokens as nat),
        r.cost_micro as nat == cost_micro_of_text(
            match cost_text {
                Some(t) => Some(t@),
                None => None,
            },
        ),
        r.cost@ == cost_display_spec(r.cost_micro as nat),
        r.model@ == (match models {
            Some(ms) => model_list_spec(ms.deep_view()),
            None => "--"@,
        }),
        r.reset_time is None,
        r.remaining_time@ == "completed"@,
        start_ms is None ==> r.session_start@ == "--"@ && r.session_end@ == "--"@
            && r.latest_session@ == "--"@,
        r.session_start@.len() == 8 || r.session_start@ == "--"@,
        r.session_end@.len() == 8 || r.session_end@ == "--"@,
        r.latest_session@.len() >= 23 || r.latest_session@ == "--"@,
{
    let cost_micro = cost_from_text(&cost_text);
    let cost = cost_display(cost_micro);
    let model = model_field(&models);
    let tokens = {
        let v = u64_to_chars(total_tokens);
        string_of_chars(&v)
    };
    let tokens_num: i64 = #[verifier::truncate] (total_tokens as i64);
    match start_ms {
        Some(s) => {
            let end = match actual_end_ms {
                Some(e) => e,
                None => s + 18000000,
            };
            CcusageData {
                latest_session: stamp_or_dashes(s),
                session_start: clock_or_dashes(s),
                session_end: clock_or_dashes(end),
                remaining_time: String::from_str("completed"),
                tokens,
                cost,
                status: SessionStatus::Completed,
                model,
                tokens_num,
                cost_micro,
                reset_time: None,
            }
        },
        None => {
            CcusageData {
                latest_session: String::from_str("--"),
                session_start: String::from_str("--"),
                session_end: String::from_str("--"),
                remaining_time: String::from_str("completed"),
                tokens,
                cost,
                status: SessionStatus::Completed,
                model,
                tokens_num,
                cost_micro,
                reset_time: None,
            }
        },
    }
}

} // verus!

verus! {

/// The start instant of block `i`: its RFC 3339 text parsed to epoch
/// milliseconds; a function of the document text alone.
pub open spec fn spec_block_start_ms(s: Seq<char>, i: nat) -> Option<i64> {
    match crate::jsonio::block_start_text_of(s, i) {
        Some(t) => crate::clock::rfc3339_millis(t),
        None => None,
    }
}

/// The token count of block `i`, zero where the field is missing.
pub open spec fn spec_block_tokens(s: Seq<char>, i: nat) -> u64 {
    match crate::jsonio::block_tokens_of(s, i) {
        Some(t) => t,
        None => 0,
    }
}

/// The newest of the first `n` blocks whose `isActive` member is true.
pub open spec fn active_from(s: Seq<char>, n: nat) -> Option<nat>
    decreases n,
{
    if n == 0 {
        None
    } else if crate::jsonio::block_is_active_of(s, (n - 1) as nat) == Some(true) {
        Some((n - 1) as nat)
    } else {
        active_from(s, (n - 1) as nat)
    }
}

/// The newest active block of the document, if any.
pub open spec fn active_index(s: Seq<char>) -> Option<nat> {
    match crate::jsonio::blocks_len_of(s) {
        Some(n) => active_from(s, n),
        None => None,
    }
}

/// The numeric and model fields every snapshot of block `i` carries.
pub open spec fn matches_block_numbers(r: CcusageData, s: Seq<char>, i: nat) -> bool {
    &&& r.tokens_num == spec_block_tokens(s, i) as i64
    &&& r.tokens@ == dec_digits(spec_block_tokens(s, i) as nat)
    &&& r.cost_micro as nat == cost_micro_of_text(crate::jsonio::block_cost_text_of(s, i))
    &&& r.cost@ == cost_display_spec(r.cost_micro as nat)
    &&& r.model@ == (match crate::jsonio::block_models_of(s, i) {
        Some(ms) => model_list_spec(ms),
        None => "--"@,
    })
}

/// The clock labels' shapes: the displayed texts depend on the machine's time
/// zone, so only their forms are owed.
pub open spec fn matches_label_shapes(r: CcusageData) -> bool {
    &&& r.session_start@.len() == 8 || r.session_start@ == "--"@
    &&& r.session_end@.len() == 8 || r.session_end@ == "--"@
    &&& r.latest_session@.len() >= 23 || r.latest_session@ == "--"@
}

/// What the snapshot of active block `i` of the document holds.
pub open spec fn matches_active_snapshot(r: CcusageData, s: Seq<char>, i: nat, now: int) -> bool {
    &&& r.status == SessionStatus::Active
    &&& matches_block_numbers(r, s, i)
    &&& matches_label_shapes(r)
    &&& match spec_block_start_ms(s, i) {
        Some(st) => r.reset_time == Some((st + block_ms()) as i64) && r.remaining_time@
            == remaining_label_spec(
            st + block_ms(),
            now,
            crate::jsonio::block_remaining_minutes_of(s, i),
        ),
        None => r.reset_time is None && r.remaining_time@ == "--"@ && r.session_start@ == "--"@
            && r.session_end@ == "--"@ && r.latest_session@ == "--"@,
    }
}

/// What the snapshot of completed block `i` of the document holds.
pub open spec fn matches_completed_snapshot(r: CcusageData, s: Seq<char>, i: nat) -> bool {
    &&& r.status == SessionStatus::Completed
    &&& matches_block_numbers(r, s, i)
    &&& matches_label_shapes(r)
    &&& r.reset_time is None
    &&& r.remaining_time@ == "completed"@
    &&& spec_block_start_ms(s, i) is None ==> r.session_start@ == "--"@ && r.session_end@
        == "--"@ && r.latest_session@ == "--"@
}

impl CcusageMonitor {
    fn parse_active_block(&self, output: &str, i: usize, now_ms: i64) -> (r: CcusageData)
        requires
            -300000000000000000 <= now_ms <= 300000000000000000,
        ensures
            matches_active_snapshot(r, output@, i as nat, now_ms as int),
            r.reset_time matches Some(v) ==> -600000000000000000 <= v <= 600000000000000000,
    {
        let start_text = crate::jsonio::block_start_string(output, i);
        let start_ms = match &start_text {
            Some(t) => crate::clock::parse_rfc3339_millis(t.as_str()),
            None => None,
        };
        proof {
            assert(start_ms == spec_block_start_ms(output@, i as nat));
        }
        let remaining_minutes = crate::jsonio::block_remaining_minutes(output, i);
        let total_tokens = match crate::jsonio::block_tokens(output, i) {
            Some(t) => t,
            None => 0,
        };
        let cost_text = crate::jsonio::block_cost_string(output, i);
        let models = crate::jsonio::block_model_strings(output, i);
        assemble_active_data(start_ms, remaining_minutes, total_tokens, cost_text, models, now_ms)
    }

    fn parse_completed_block(&self, output: &str, i: usize) -> (r: CcusageData)
        ensures
            matches_completed_snapshot(r, output@, i as nat),
    {
        let start_text = crate::jsonio::block_start_string(output, i);
        let start_ms = match &start_text {
            Some(t) => crate::clock::parse_rfc3339_millis(t.as_str()),
            None => None,
        };
        proof {
            assert(start_ms == spec_block_start_ms(output@, i as nat));
        }
        let end_text = crate::jsonio::block_actual_end_string(output, i);
        let actual_end_ms = match &end_text {
            Some(t) => crate::clock::parse_rfc3339_millis(t.as_str()),
            None => None,
        };
        let total_tokens = match crate::jsonio::block_tokens(output, i) {
            Some(t) => t,
            None => 0,
        };
        let cost_text = crate::jsonio::block_cost_string(output, i);
        let models = crate::jsonio::block_model_strings(output, i);
        assemble_completed_data(start_ms, actual_end_ms, total_tokens, cost_text, models)
    }

    /// Read the JSON blocks report: the newest block marked active wins, else
    /// the last block is read as completed, and a document without blocks
    /// yields the empty snapshot. The clock decides only the remaining-time
    /// label.
    pub fn parse_ccusage_json(&self, output: &str, now_ms: i64) -> (r: CcusageData)
        requires
            -300000000000000000 <= now_ms <= 300000000000000000,
        ensures
            crate::jsonio::blocks_len_of(output@) is None || crate::jsonio::blocks_len_of(output@)
                == Some(0nat) ==> is_empty_snapshot(r),
            active_index(output@) matches Some(i) ==> matches_active_snapshot(
                r,
                output@,
                i,
                now_ms as int,
            ),
            crate::jsonio::blocks_len_of(output@) matches Some(n) ==> ((n > 0 && active_index(
                output@,
            ) is None) ==> matches_completed_snapshot(r, output@, (n - 1) as nat)),
            r.status is Active || r.status is Completed || is_empty_snapshot(r),
            r.status is Completed ==> r.reset_time is None,
            r.reset_time matches Some(v) ==> -600000000000000000 <= v <= 600000000000000000,
    {
        let n = match crate::jsonio::blocks_len(output) {
            Some(n) => n,
            None => {
                return CcusageData::default();
            },
        };
        if n == 0 {
            return CcusageData::default();
        }
        let mut i: usize = n;
        while i > 0
            invariant
                i <= n,
                crate::jsonio::blocks_len_of(output@) == Some(n as nat),
                active_from(output@, n as nat) == active_from(output@, i as nat),
                -300000000000000000 <= now_ms <= 300000000000000000,
            decreases i,
        {
            let at_i = i - 1;
            if crate::jsonio::block_is_active(output, at_i) == Some(true) {
                proof {
                    assert(active_from(output@, (at_i + 1) as nat) == Some(at_i as nat));
                    assert(active_index(output@) == Some(at_i as nat));
                }
                return self.parse_active_block(output, at_i, now_ms);
            }
            proof {
                assert(active_from(output@, (at_i + 1) as nat) == active_from(
                    output@,
                    at_i as nat,
                ));
            }
            i = at_i;
        }
        proof {
            assert(active_from(output@, 0) is None);
            assert(active_index(output@) is None);
        }
        self.parse_completed_block(output, n - 1)
    }
}

} // verus!

verus! {

/// The usage digest's body: the token count behind its label, the cost, and
/// the remaining time, one per line.
pub open spec fn usage_body_spec(
    usage_label: Seq<char>,
    tokens: int,
    cost_label: Seq<char>,
    cost_micro: nat,
    remaining_label: Seq<char>,
    remaining: Seq<char>,
) -> Seq<char> {
    "Token "@ + usage_label + ": "@ + crate::text::format_number_spec(tokens) + "\n"@ + cost_label
        + ": "@ + cost_display_spec(cost_micro) + "\n"@ + remaining_label + ": "@ + remaining
}

/// Compose the usage notification's body from the current language's labels
/// and the snapshot's numbers.
pub fn usage_notification_body(
    usage_label: &str,
    tokens: i64,
    cost_label: &str,
    cost_micro: u64,
    remaining_label: &str,
    remaining: &str,
) -> (r: String)
    requires
        cost_micro < 10000000000000000000,
    ensures
        r@ == usage_body_spec(
            usage_label@,
            tokens as int,
            cost_label@,
            cost_micro as nat,
            remaining_label@,
            remaining@,
        ),
{
    let mut v = chars_of_str("Token ");
    let ul = chars_of_str(usage_label);
    crate::text::append_chars(&mut v, &ul);
    let colon = chars_of_str(": ");
    crate::text::append_chars(&mut v, &colon);
    let num = chars_of_str(crate::text::format_number(tokens).as_str());
    crate::text::append_chars(&mut v, &num);
    let nl = chars_of_str("\n");
    crate::text::append_chars(&mut v, &nl);
    let cl = chars_of_str(cost_label);
    crate::text::append_chars(&mut v, &cl);
    crate::text::append_chars(&mut v, &colon);
    let cd = chars_of_str(cost_display(cost_micro).as_str());
    crate::text::append_chars(&mut v, &cd);
    crate::text::append_chars(&mut v, &nl);
    let rl = chars_of_str(remaining_label);
    crate::text::append_chars(&mut v, &rl);
    crate::text::append_chars(&mut v, &colon);
    let rm = chars_of_str(remaining);
    crate::text::append_chars(&mut v, &rm);
    proof {
        assert(v@ =~= usage_body_spec(
            usage_label@,
            tokens as int,
            cost_label@,
            cost_micro as nat,
            remaining_label@,
            remaining@,
        ));
    }
    string_of_chars(&v)
}

} // verus!

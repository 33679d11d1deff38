use vstd::prelude::*;
use vstd::string::StringExecFns;
use crate::text::str_eq;

verus! {

/// One model's tariff, in millionths of a dollar per million tokens.
pub struct ModelPricing {
    pub name: String,
    pub display_name: String,
    pub input_price_micro: u64,
    pub output_price_micro: u64,
}

/// The mathematical content of a tariff row.
pub open spec fn mp_model(m: ModelPricing) -> (Seq<char>, Seq<char>, nat, nat) {
    (m.name@, m.display_name@, m.input_price_micro as nat, m.output_price_micro as nat)
}

/// Position of the first tariff with this name, or the length when there is
/// none.
pub open spec fn pricing_index(ms: Seq<ModelPricing>, name: Seq<char>) -> int
    decreases ms.len(),
{
    if ms.len() == 0 {
        0
    } else if ms[0].name@ == name {
        0
    } else {
        1 + pricing_index(ms.drop_first(), name)
    }
}

pub proof fn lemma_pricing_index(ms: Seq<ModelPricing>, name: Seq<char>)
    ensures
        0 <= pricing_index(ms, name) <= ms.len(),
        pricing_index(ms, name) < ms.len() ==> ms[pricing_index(ms, name)].name@ == name,
        forall|j: int| 0 <= j < pricing_index(ms, name) ==> ms[j].name@ != name,
    decreases ms.len(),
{
    if ms.len() > 0 && ms[0].name@ != name {
        lemma_pricing_index(ms.drop_first(), name);
        assert forall|j: int| 0 <= j < pricing_index(ms, name) implies ms[j].name@ != name by {
            if j > 0 {
                assert(ms.drop_first()[j - 1].name@ != name);
            }
        }
        if pricing_index(ms, name) < ms.len() {
            assert(ms.drop_first()[pricing_index(ms, name) - 1].name@ == name);
        }
    }
}

/// The cost of a token split under a tariff, in millionths of a dollar,
/// saturating at the integer's limit.
pub open spec fn tariff_cost(
    input_tokens: nat,
    output_tokens: nat,
    input_price: nat,
    output_price: nat,
) -> nat {
    let c = input_tokens * input_price / 1000000 + output_tokens * output_price / 1000000;
    if c > u64::MAX {
        u64::MAX as nat
    } else {
        c
    }
}

/// The user's tariff table.
pub struct ModelPricingConfig {
    pub models: Vec<ModelPricing>,
}

impl ModelPricingConfig {
    /// The first tariff carrying this model name.
    pub fn get_model_pricing(&self, model_name: &str) -> (r: Option<&ModelPricing>)
        ensures
            pricing_index(self.models@, model_name@) < self.models@.len() ==> r == Some(
                &self.models@[pricing_index(self.models@, model_name@)],
            ),
            pricing_index(self.models@, model_name@) >= self.models@.len() ==> r is None,
    {
        proof {
            lemma_pricing_index(self.models@, model_name@);
        }
        let n = self.models.len();
        let ghost ms = self.models@;
        let mut i: usize = 0;
        while i < n
            invariant
                n == ms.len(),
                ms == self.models@,
                i <= n,
                forall|j: int| 0 <= j < i ==> ms[j].name@ != model_name@,
            decreases n - i,
        {
            if str_eq(self.models[i].name.as_str(), model_name) {
                proof {
                    lemma_pricing_index_at(ms, model_name@, i as int);
                }
                return Some(&self.models[i]);
            }
            i = i + 1;
        }
        proof {
            lemma_pricing_index(ms, model_name@);
            if pricing_index(ms, model_name@) < ms.len() {
                assert(ms[pricing_index(ms, model_name@)].name@ == model_name@);
            }
        }
        None
    }

    /// What this model charges for the split, when its tariff is known.
    pub fn calculate_cost(&self, model_name: &str, input_tokens: u64, output_tokens: u64) -> (r:
        Option<u64>)
        ensures
            pricing_index(self.models@, model_name@) < self.models@.len() ==> (r matches Some(c)
                && c as nat == ({
                let m = self.models@[pricing_index(self.models@, model_name@)];
                tariff_cost(
                    input_tokens as nat,
                    output_tokens as nat,
                    m.input_price_micro as nat,
                    m.output_price_micro as nat,
                )
            })),
            pricing_index(self.models@, model_name@) >= self.models@.len() ==> r is None,
    {
        match self.get_model_pricing(model_name) {
            Some(m) => {
                proof {
                    vstd::arithmetic::mul::lemma_mul_upper_bound(
                        input_tokens as int,
                        u64::MAX as int,
                        m.input_price_micro as int,
                        u64::MAX as int,
                    );
                    vstd::arithmetic::mul::lemma_mul_upper_bound(
                        output_tokens as int,
                        u64::MAX as int,
                        m.output_price_micro as int,
                        u64::MAX as int,
                    );
                    assert(u64::MAX as int * u64::MAX as int <= u128::MAX as int);
                }
                let inc: u128 = (input_tokens as u128) * (m.input_price_micro as u128) / 1000000;
                let outc: u128 = (output_tokens as u128) * (m.output_price_micro as u128)
                    / 1000000;
                let total: u128 = inc + outc;
                let c: u64 = if total > u64::MAX as u128 {
                    u64::MAX
                } else {
                    total as u64
                };
                Some(c)
            },
            None => None,
        }
    }
}

proof fn lemma_pricing_index_at(ms: Seq<ModelPricing>, name: Seq<char>, i: int)
    requires
        0 <= i < ms.len(),
        ms[i].name@ == name,
        forall|j: int| 0 <= j < i ==> ms[j].name@ != name,
    ensures
        pricing_index(ms, name) == i,
    decreases i,
{
    if i > 0 {
        assert forall|j: int| 0 <= j < i - 1 implies ms.drop_first()[j].name@ != name by {
            assert(ms[j + 1].name@ != name);
        }
        assert(ms.drop_first()[i - 1].name@ == name);
        lemma_pricing_index_at(ms.drop_first(), name, i - 1);
    }
}

/// Every model's cost for one token split: each row keeps its own name and
/// display name, priced under the first tariff bearing its name.
pub fn calculate_all_model_costs(
    config: &ModelPricingConfig,
    input_tokens: u64,
    output_tokens: u64,
) -> (r: Vec<(String, String, u64)>)
    ensures
        r@.len() == config.models@.len(),
        forall|i: int|
            0 <= i < r@.len() ==> (#[trigger] r@[i]).0@ == config.models@[i].name@ && r@[i].1@
                == config.models@[i].display_name@ && r@[i].2 as nat == ({
                let k = pricing_index(config.models@, config.models@[i].name@);
                if k < config.models@.len() {
                    tariff_cost(
                        input_tokens as nat,
                        output_tokens as nat,
                        config.models@[k].input_price_micro as nat,
                        config.models@[k].output_price_micro as nat,
                    )
                } else {
                    0
                }
            }),
{
    let n = config.models.len();
    let mut r: Vec<(String, String, u64)> = Vec::new();
    let mut i: usize = 0;
    while i < n
        invariant
            n == config.models@.len(),
            i <= n,
            r@.len() == i,
            forall|k: int|
                0 <= k < i ==> (#[trigger] r@[k]).0@ == config.models@[k].name@ && r@[k].1@
                    == config.models@[k].display_name@ && r@[k].2 as nat == ({
                    let p = pricing_index(config.models@, config.models@[k].name@);
                    if p < config.models@.len() {
                        tariff_cost(
                            input_tokens as nat,
                            output_tokens as nat,
                            config.models@[p].input_price_micro as nat,
                            config.models@[p].output_price_micro as nat,
                        )
                    } else {
                        0
                    }
                }),
        decreases n - i,
    {
        let name = self_name_clone(&config.models[i]);
        let display = self_display_clone(&config.models[i]);
        let cost = match config.calculate_cost(name.as_str(), input_tokens, output_tokens) {
            Some(c) => c,
            None => 0,
        };
        r.push((name, display, cost));
        i = i + 1;
    }
    r
}

fn self_name_clone(m: &ModelPricing) -> (r: String)
    ensures
        r@ == m.name@,
{
    m.name.clone()
}

fn self_display_clone(m: &ModelPricing) -> (r: String)
    ensures
        r@ == m.display_name@,
{
    m.display_name.clone()
}

} // verus!

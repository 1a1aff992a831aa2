//! The models that can be addressed, and how a user's choice picks one.
use crate::text::{has_prefix, parse_usize, parse_usize_spec, starts_with, trim, trimmed};
use vstd::prelude::*;

verus! {

/// The selectable models, in menu order.
pub open spec fn model_names() -> Seq<Seq<char>> {
    seq!["gemini-2.0-flash"@, "gemini-2.0-pro"@, "gemini-1.5-flash"@, "gemini-1.5-pro"@]
}

pub fn list_available_models() -> (r: Vec<&'static str>)
    ensures
        r@.len() == model_names().len(),
        forall|i: int| 0 <= i < r@.len() ==> (#[trigger] r@[i])@ == model_names()[i],
{
    let r = vec!["gemini-2.0-flash", "gemini-2.0-pro", "gemini-1.5-flash", "gemini-1.5-pro"];
    r
}

/// The first of `names` from `k` on that begins with `p`, if any.
pub open spec fn first_with_prefix(names: Seq<Seq<char>>, p: Seq<char>, k: int) -> Option<int>
    decreases names.len() - k,
{
    if k < 0 || k >= names.len() {
        None
    } else if has_prefix(names[k], p) {
        Some(k)
    } else {
        first_with_prefix(names, p, k + 1)
    }
}

/// The model that the answer `choice` selects: a menu number from one, or
/// the start of a name; the first model for an empty, out-of-range or
/// unmatched answer.
pub open spec fn selected_model(choice: Seq<char>) -> Seq<char> {
    let c = trimmed(choice);
    let names = model_names();
    if c.len() == 0 {
        names[0]
    } else {
        match parse_usize_spec(c) {
            Some(n) => if 1 <= n <= names.len() {
                names[n - 1]
            } else {
                names[0]
            },
            None => match first_with_prefix(names, c, 0) {
                Some(k) => names[k],
                None => names[0],
            },
        }
    }
}

/// Picks a model from the user's answer.
pub fn select_model(choice: &str) -> (r: &'static str)
    ensures
        r@ == selected_model(choice@),
{
    let models = list_available_models();
    let c = trim(choice);
    if c.unicode_len() == 0 {
        return models[0];
    }
    match parse_usize(c) {
        Some(n) => {
            if 1 <= n && n <= models.len() {
                models[n - 1]
            } else {
                models[0]
            }
        },
        None => {
            let mut k: usize = 0;
            while k < models.len()
                invariant
                    0 <= k <= models@.len(),
                    models@.len() == model_names().len(),
                    forall|i: int| 0 <= i < models@.len() ==> (#[trigger] models@[i])@ == model_names()[i],
                    c@ == trimmed(choice@),
                    c@.len() > 0,
                    parse_usize_spec(c@) is None,
                    first_with_prefix(model_names(), c@, 0) == first_with_prefix(model_names(), c@, k as int),
                decreases models.len() - k,
            {
                if starts_with(models[k], c) {
                    assert(first_with_prefix(model_names(), c@, k as int) == Some(k as int));
                    return models[k];
                }
                k = k + 1;
            }
            models[0]
        },
    }
}

/// The answer to the model menu: a blank answer cancels, any other selects
/// as `select_model` does.
pub fn model_choice(answer: &str) -> (r: Option<&'static str>)
    ensures
        trimmed(answer@).len() == 0 ==> r is None,
        trimmed(answer@).len() > 0 ==> (r matches Some(m) && m@ == selected_model(answer@)),
{
    if trim(answer).unicode_len() == 0 {
        None
    } else {
        Some(select_model(answer))
    }
}

} // verus!

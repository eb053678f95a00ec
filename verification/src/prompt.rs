//! The prompt sent to the text-generation service: a task prefix, the
//! user's optional contraindications text, and the profile fields.
//!
//! A text of exactly `"."` means "no contraindications" and produces the
//! same prompt as no text at all.

use vstd::prelude::*;
use vstd::string::StringExecFns;
use crate::profile::{TrainingKind, Users};
use crate::text::{spec_int_str, i32_to_string, str_eq};

verus! {

/// A profile field rendered for the prompt: the number, or `None` where
/// the field was never filled in.
pub open spec fn spec_opt_i32_str(o: Option<i32>) -> Seq<char> {
    match o {
        Some(v) => spec_int_str(v as int),
        None => "None"@,
    }
}

/// The profile tail appended to every prompt: age, height and weight.
pub open spec fn spec_profile_suffix(u: Users) -> Seq<char> {
    " Вік: "@ + spec_opt_i32_str(u.age) + " Зріст: "@ + spec_opt_i32_str(u.height)
        + " Вага: "@ + spec_opt_i32_str(u.weight)
}

/// The view of an optional string slice.
pub open spec fn opt_str_view(p: Option<&str>) -> Option<Seq<char>> {
    match p {
        Some(s) => Some(s@),
        None => None,
    }
}

/// The full prompt: with contraindications the text stands between the
/// `c1` prefix and the profile tail; without them (no text, or exactly
/// `"."`) the `c2` prefix is used alone.
pub open spec fn spec_format_prompt(
    prompt: Option<Seq<char>>,
    c1: Seq<char>,
    c2: Seq<char>,
    u: Users,
) -> Seq<char> {
    match prompt {
        Some(p) => if p == "."@ {
            c2 + spec_profile_suffix(u)
        } else {
            c1 + p + spec_profile_suffix(u)
        },
        None => c2 + spec_profile_suffix(u),
    }
}

/// Renders a profile field, `None` where it is absent.
pub fn opt_i32_to_string(o: &Option<i32>) -> (r: String)
    ensures
        r@ == spec_opt_i32_str(*o),
{
    match o {
        Some(v) => i32_to_string(*v),
        None => "None".to_owned(),
    }
}

fn profile_suffix(user: &Users) -> (r: String)
    ensures
        r@ == spec_profile_suffix(*user),
{
    let mut s = String::from_str(" Вік: ");
    s.append(opt_i32_to_string(&user.age).as_str());
    s.append(" Зріст: ");
    s.append(opt_i32_to_string(&user.height).as_str());
    s.append(" Вага: ");
    s.append(opt_i32_to_string(&user.weight).as_str());
    s
}

/// Builds the generation prompt from the optional contraindications text,
/// the two task prefixes and the profile.
pub fn format_prompt(prompt: Option<&str>, const1: &str, const2: &str, user: &Users) -> (r:
    String)
    ensures
        r@ == spec_format_prompt(opt_str_view(prompt), const1@, const2@, *user),
{
    match prompt {
        Some(p) => {
            if str_eq(p, ".") {
                let mut s = const2.to_owned();
                s.append(profile_suffix(user).as_str());
                s
            } else {
                let mut s = const1.to_owned();
                s.append(p);
                s.append(profile_suffix(user).as_str());
                s
            }
        },
        None => {
            let mut s = const2.to_owned();
            s.append(profile_suffix(user).as_str());
            s
        },
    }
}

/// The prompt asking for a training plan of the given kind.
pub open spec fn spec_training_prompt(
    kind: TrainingKind,
    prompt: Option<Seq<char>>,
    u: Users,
) -> Seq<char> {
    match kind {
        TrainingKind::Home => spec_format_prompt(
            prompt,
            "Зроби мені програму домашніх тренувань, врахуй такі протипоказання: "@,
            "Зроби мені програму домашніх тренувань."@,
            u,
        ),
        TrainingKind::Gym => spec_format_prompt(
            prompt,
            "Зроби мені програму тренувань у залі, врахуй такі протипоказання: "@,
            "Зроби мені програму тренувань у залі."@,
            u,
        ),
    }
}

/// Builds the generation prompt for a training plan.
pub fn training_prompt(kind: TrainingKind, text: Option<&str>, user: &Users) -> (r: String)
    ensures
        r@ == spec_training_prompt(kind, opt_str_view(text), *user),
{
    match kind {
        TrainingKind::Home => format_prompt(
            text,
            "Зроби мені програму домашніх тренувань, врахуй такі протипоказання: ",
            "Зроби мені програму домашніх тренувань.",
            user,
        ),
        TrainingKind::Gym => format_prompt(
            text,
            "Зроби мені програму тренувань у залі, врахуй такі протипоказання: ",
            "Зроби мені програму тренувань у залі.",
            user,
        ),
    }
}

/// The prompt asking for a diet plan.
pub open spec fn spec_diet_prompt(prompt: Option<Seq<char>>, u: Users) -> Seq<char> {
    spec_format_prompt(
        prompt,
        "Зроби мені програму харчування, врахуй такі протипоказання: "@,
        "Зроби мені програму харчування."@,
        u,
    )
}

/// Builds the generation prompt for a diet plan.
pub fn diet_prompt(text: Option<&str>, user: &Users) -> (r: String)
    ensures
        r@ == spec_diet_prompt(opt_str_view(text), *user),
{
    format_prompt(
        text,
        "Зроби мені програму харчування, врахуй такі протипоказання: ",
        "Зроби мені програму харчування.",
        user,
    )
}

/// A lone `"."` as contraindications text builds exactly the prompt that
/// no text at all builds.
pub proof fn lemma_dot_means_no_contraindications(c1: Seq<char>, c2: Seq<char>, u: Users)
    ensures
        spec_format_prompt(Some("."@), c1, c2, u) == spec_format_prompt(None, c1, c2, u),
{
}

} // verus!

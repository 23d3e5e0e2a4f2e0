//! Argument dispatch and the model of what a run does to the target file.
//!
//! The first argument selects one of four verbs, exactly and
//! case-sensitively; anything else is an unrecognized argument. The target
//! file is created, and thereby truncated, before the argument is even
//! examined, so a run that writes nothing still leaves the file empty.

use vstd::prelude::*;

use crate::search::contains_seq;
use crate::search::str_eq;
use crate::templates::spec_activation_content;
use crate::templates::spec_adguard_dns_server_config;
use crate::templates::spec_default_template;
use crate::templates::activation_content;
use crate::templates::deactivation_content;
use crate::templates::lemma_activation_content_contains_blocks;
use crate::templates::lemma_default_template_lacks_provider_block;

verus! {

/// What a run does after the target file has been truncated.
#[derive(Clone, Copy, PartialEq, Eq, Structural, Debug)]
pub enum Action {
    /// Print the help text.
    PrintHelp,
    /// Write the extended template, then run the reload command.
    Activate,
    /// Write the base template, then run the reload command.
    Deactivate,
    /// Run the lookup tool and classify its output.
    Status,
    /// Report an unrecognized argument on the error stream.
    Unknown,
}

/// The verb selected by an argument list (the first entry being the program
/// name): no argument or the help flag print help, the four verbs match
/// exactly in either spelled or flag form, and anything else is unknown.
pub open spec fn spec_parse(args: Seq<Seq<char>>) -> Action
    recommends
        args.len() >= 1,
{
    if args.len() == 1 {
        Action::PrintHelp
    } else if args[1] == "--help"@ {
        Action::PrintHelp
    } else if args[1] == "--activate"@ || args[1] == "activate"@ {
        Action::Activate
    } else if args[1] == "--deactivate"@ || args[1] == "deactivate"@ {
        Action::Deactivate
    } else if args[1] == "--status"@ || args[1] == "status"@ {
        Action::Status
    } else {
        Action::Unknown
    }
}

/// Dispatches on the argument list. The list must hold at least the program
/// name; only its second entry is ever examined.
pub fn parse_args(args: &Vec<String>) -> (a: Action)
    requires
        args@.len() >= 1,
    ensures
        a == spec_parse(args.deep_view()),
{
    if args.len() == 1 {
        return Action::PrintHelp;
    }
    let arg = args[1].as_str();
    if str_eq(arg, "--help") {
        Action::PrintHelp
    } else if str_eq(arg, "--activate") || str_eq(arg, "activate") {
        Action::Activate
    } else if str_eq(arg, "--deactivate") || str_eq(arg, "deactivate") {
        Action::Deactivate
    } else if str_eq(arg, "--status") || str_eq(arg, "status") {
        Action::Status
    } else {
        Action::Unknown
    }
}

/// What a run writes into the already truncated target file, if anything.
pub open spec fn spec_write_for(a: Action) -> Option<Seq<char>> {
    match a {
        Action::Activate => Some(spec_activation_content()),
        Action::Deactivate => Some(spec_default_template()),
        _ => None,
    }
}

/// The content the target file holds after a run with the given action,
/// starting from content `prev`. The file is truncated when it is opened,
/// before the action is examined, so `prev` never survives: runs that write
/// nothing leave the file empty.
pub open spec fn spec_file_content_after(prev: Seq<char>, a: Action) -> Seq<char> {
    match spec_write_for(a) {
        Some(c) => c,
        None => Seq::<char>::empty(),
    }
}

/// The text a run writes into the (already truncated) target file: the
/// extended template for activate, the base template for deactivate, and
/// nothing for the other actions.
pub fn file_write_for(a: &Action) -> (r: Option<String>)
    ensures
        match r {
            Some(c) => spec_write_for(*a) == Some(c@),
            None => spec_write_for(*a) is None,
        },
{
    match a {
        Action::Activate => Some(activation_content()),
        Action::Deactivate => Some(deactivation_content()),
        _ => None,
    }
}

/// Running the same action twice leaves exactly the file that running it
/// once leaves: every run truncates the file and writes its whole text
/// afresh, so nothing accumulates across runs. In particular activating
/// twice in succession equals activating once.
pub proof fn lemma_run_idempotent(prev: Seq<char>, a: Action)
    ensures
        spec_file_content_after(spec_file_content_after(prev, a), a) == spec_file_content_after(
            prev,
            a,
        ),
{
}

/// The file content a run leaves does not depend on the content the file
/// held before: the truncation at open wipes it whatever it was.
pub proof fn lemma_run_overwrites(prev1: Seq<char>, prev2: Seq<char>, a: Action)
    ensures
        spec_file_content_after(prev1, a) == spec_file_content_after(prev2, a),
{
}

/// After an activate run the target file holds the full extended template
/// (it is the whole content) and with it the provider block and the base
/// template as contiguous substrings; after a deactivate run it holds
/// exactly the base template and the provider block nowhere.
pub proof fn lemma_file_after_activate_and_deactivate(prev: Seq<char>)
    ensures
        spec_file_content_after(prev, Action::Activate) == spec_activation_content(),
        contains_seq(
            spec_file_content_after(prev, Action::Activate),
            spec_adguard_dns_server_config(),
        ),
        contains_seq(spec_file_content_after(prev, Action::Activate), spec_default_template()),
        spec_file_content_after(prev, Action::Deactivate) == spec_default_template(),
        !contains_seq(
            spec_file_content_after(prev, Action::Deactivate),
            spec_adguard_dns_server_config(),
        ),
{
    lemma_activation_content_contains_blocks();
    lemma_default_template_lacks_provider_block();
}

} // verus!

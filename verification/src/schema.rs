//! The argument schema: one static declaration of every recognized
//! command-line token — its names, its arity, its declared default and its
//! help line — so that a single listing drives both parsing and the
//! generated help text.
//!
//! The schema performs no resolution itself: the parser reports exactly what
//! the user supplied, and the resolver substitutes the defaults for absent
//! values — the declared literals for `base-url`, `cookies`, `encoding` and
//! `output`, its own fallback constants for `timeout` and `user-agent`.

use vstd::prelude::*;

verus! {

/// How many values an argument takes: none (a presence flag), exactly one,
/// or one per occurrence, appended in command-line order.
#[derive(Clone, Copy, Debug, PartialEq, Eq, Structural)]
pub enum Arity {
    Flag,
    Single,
    Append,
}

/// One declared argument: its token name, an optional short and long form,
/// its arity, the default literal shown in the help text (if any), whether
/// it is mandatory, whether it is matched by position, and its help line.
pub struct ArgSpec {
    pub name: String,
    pub short: Option<char>,
    pub long: Option<String>,
    pub arity: Arity,
    pub default_text: Option<String>,
    pub required: bool,
    pub positional: bool,
    pub help: String,
}

/// The mathematical view of `ArgSpec`.
#[verifier::ext_equal]
pub struct ArgModel {
    pub name: Seq<char>,
    pub short: Option<char>,
    pub long: Option<Seq<char>>,
    pub arity: Arity,
    pub default_text: Option<Seq<char>>,
    pub required: bool,
    pub positional: bool,
    pub help: Seq<char>,
}

impl View for ArgSpec {
    type V = ArgModel;

    open spec fn view(&self) -> ArgModel {
        ArgModel {
            name: self.name@,
            short: self.short,
            long: self.long.deep_view(),
            arity: self.arity,
            default_text: self.default_text.deep_view(),
            required: self.required,
            positional: self.positional,
            help: self.help@,
        }
    }
}

impl DeepView for ArgSpec {
    type V = ArgModel;

    open spec fn deep_view(&self) -> ArgModel {
        self.view()
    }
}

/// A declared presence flag: optional, not positional, long form equal to
/// its name, no default.
pub open spec fn flag_model(name: Seq<char>, short: char, help: Seq<char>) -> ArgModel {
    ArgModel {
        name,
        short: Some(short),
        long: Some(name),
        arity: Arity::Flag,
        default_text: None,
        required: false,
        positional: false,
        help,
    }
}

/// A declared single-value option with a default literal for the help text.
pub open spec fn option_model(
    name: Seq<char>,
    short: char,
    long: Seq<char>,
    default_text: Seq<char>,
    help: Seq<char>,
) -> ArgModel {
    ArgModel {
        name,
        short: Some(short),
        long: Some(long),
        arity: Arity::Single,
        default_text: Some(default_text),
        required: false,
        positional: false,
        help,
    }
}

/// A declared repeatable option: one value per occurrence, no default.
pub open spec fn append_model(name: Seq<char>, short: char, long: Seq<char>, help: Seq<char>) -> ArgModel {
    ArgModel {
        name,
        short: Some(short),
        long: Some(long),
        arity: Arity::Append,
        default_text: None,
        required: false,
        positional: false,
        help,
    }
}

/// The one mandatory positional argument: no names, exactly one value.
pub open spec fn positional_model(name: Seq<char>, help: Seq<char>) -> ArgModel {
    ArgModel {
        name,
        short: None,
        long: None,
        arity: Arity::Single,
        default_text: None,
        required: true,
        positional: true,
        help,
    }
}

/// The whole declaration, in the order the help text lists it: fourteen
/// presence flags, the repeatable `--domain`, the mandatory positional
/// target, and the six single-value options with their declared defaults.
pub open spec fn spec_schema() -> Seq<ArgModel> {
    seq![
        flag_model("no-audio"@, 'a', "Remove audio sources"@),
        option_model("base-url"@, 'b', "base-url"@, "http://localhost/"@, "Set custom base URL"@),
        flag_model("blacklist-domains"@, 'B', "Treat list of specified domains as blacklist"@),
        flag_model("no-css"@, 'c', "Remove CSS"@),
        flag_model("ignore-errors"@, 'e', "Ignore network errors"@),
        flag_model("no-frames"@, 'f', "Remove frames and iframes"@),
        flag_model("no-fonts"@, 'F', "Remove fonts"@),
        flag_model("no-images"@, 'i', "Remove images"@),
        flag_model("isolate"@, 'I', "Cut off document from the Internet"@),
        flag_model("no-js"@, 'j', "Remove JavaScript"@),
        flag_model("insecure"@, 'k', "Allow invalid X.509 (TLS) certificates"@),
        flag_model("no-metadata"@, 'M', "Exclude timestamp and source information"@),
        flag_model("unwrap-noscript"@, 'n', "Replace NOSCRIPT elements with their contents"@),
        flag_model("silent"@, 's', "Suppress verbosity"@),
        flag_model("no-video"@, 'v', "Remove video sources"@),
        append_model("domains"@, 'd', "domain"@, "Specify domains to use for white/black-listing"@),
        positional_model("target"@, "URL or file path, use - for STDIN"@),
        option_model("cookies"@, 'C', "cookies"@, "cookies.txt"@, "Specify cookie file"@),
        option_model("encoding"@, 'E', "encoding"@, "UTF-8"@, "Enforce custom charset"@),
        option_model("timeout"@, 't', "timeout"@, "60"@, "Adjust network request timeout"@),
        option_model(
            "user-agent"@,
            'u',
            "user-agent"@,
            "Mozilla/5.0 (X11; Ubuntu; Linux x86_64; rv:73.0) Gecko/20100101 Firefox/73.0"@,
            "Set custom User-Agent string"@,
        ),
        option_model("output"@, 'o', "output"@, "document.html"@, "Write output to <file>, use - for STDOUT"@),
    ]
}

fn flag_arg(name: &str, short: char, help: &str) -> (a: ArgSpec)
    ensures
        a@ == flag_model(name@, short, help@),
{
    let a = ArgSpec {
        name: name.to_owned(),
        short: Some(short),
        long: Some(name.to_owned()),
        arity: Arity::Flag,
        default_text: None,
        required: false,
        positional: false,
        help: help.to_owned(),
    };
    proof {
        assert(a@ =~= flag_model(name@, short, help@));
    }
    a
}

fn option_arg(name: &str, short: char, long: &str, default_text: &str, help: &str) -> (a: ArgSpec)
    ensures
        a@ == option_model(name@, short, long@, default_text@, help@),
{
    let a = ArgSpec {
        name: name.to_owned(),
        short: Some(short),
        long: Some(long.to_owned()),
        arity: Arity::Single,
        default_text: Some(default_text.to_owned()),
        required: false,
        positional: false,
        help: help.to_owned(),
    };
    proof {
        assert(a@ =~= option_model(name@, short, long@, default_text@, help@));
    }
    a
}

fn append_arg(name: &str, short: char, long: &str, help: &str) -> (a: ArgSpec)
    ensures
        a@ == append_model(name@, short, long@, help@),
{
    let a = ArgSpec {
        name: name.to_owned(),
        short: Some(short),
        long: Some(long.to_owned()),
        arity: Arity::Append,
        default_text: None,
        required: false,
        positional: false,
        help: help.to_owned(),
    };
    proof {
        assert(a@ =~= append_model(name@, short, long@, help@));
    }
    a
}

fn positional_arg(name: &str, help: &str) -> (a: ArgSpec)
    ensures
        a@ == positional_model(name@, help@),
{
    let a = ArgSpec {
        name: name.to_owned(),
        short: None,
        long: None,
        arity: Arity::Single,
        default_text: None,
        required: true,
        positional: true,
        help: help.to_owned(),
    };
    proof {
        assert(a@ =~= positional_model(name@, help@));
    }
    a
}

/// Builds the full argument declaration, exactly as `spec_schema` lists it.
pub fn arg_specs() -> (v: Vec<ArgSpec>)
    ensures
        v.deep_view() == spec_schema(),
        v@.len() == 22,
{
    let mut v: Vec<ArgSpec> = Vec::new();
    v.push(flag_arg("no-audio", 'a', "Remove audio sources"));
    v.push(option_arg("base-url", 'b', "base-url", "http://localhost/", "Set custom base URL"));
    v.push(flag_arg("blacklist-domains", 'B', "Treat list of specified domains as blacklist"));
    v.push(flag_arg("no-css", 'c', "Remove CSS"));
    v.push(flag_arg("ignore-errors", 'e', "Ignore network errors"));
    v.push(flag_arg("no-frames", 'f', "Remove frames and iframes"));
    v.push(flag_arg("no-fonts", 'F', "Remove fonts"));
    v.push(flag_arg("no-images", 'i', "Remove images"));
    v.push(flag_arg("isolate", 'I', "Cut off document from the Internet"));
    v.push(flag_arg("no-js", 'j', "Remove JavaScript"));
    v.push(flag_arg("insecure", 'k', "Allow invalid X.509 (TLS) certificates"));
    v.push(flag_arg("no-metadata", 'M', "Exclude timestamp and source information"));
    v.push(flag_arg("unwrap-noscript", 'n', "Replace NOSCRIPT elements with their contents"));
    v.push(flag_arg("silent", 's', "Suppress verbosity"));
    v.push(flag_arg("no-video", 'v', "Remove video sources"));
    v.push(append_arg("domains", 'd', "domain", "Specify domains to use for white/black-listing"));
    v.push(positional_arg("target", "URL or file path, use - for STDIN"));
    v.push(option_arg("cookies", 'C', "cookies", "cookies.txt", "Specify cookie file"));
    v.push(option_arg("encoding", 'E', "encoding", "UTF-8", "Enforce custom charset"));
    v.push(option_arg("timeout", 't', "timeout", "60", "Adjust network request timeout"));
    v.push(option_arg(
        "user-agent",
        'u',
        "user-agent",
        "Mozilla/5.0 (X11; Ubuntu; Linux x86_64; rv:73.0) Gecko/20100101 Firefox/73.0",
        "Set custom User-Agent string",
    ));
    v.push(option_arg("output", 'o', "output", "document.html", "Write output to <file>, use - for STDOUT"));
    proof {
        assert(v.deep_view() =~= spec_schema());
    }
    v
}

/// Law: the declaration is well formed — twenty-two entries, of which the
/// positional target is the only mandatory one and the only one matched by
/// position, and the repeatable `--domain` is the only entry that appends.
pub proof fn lemma_schema_well_formed()
    ensures
        spec_schema().len() == 22,
        spec_schema()[16] == positional_model("target"@, "URL or file path, use - for STDIN"@),
        forall|i: int| 0 <= i < 22 && i != 16 ==> !(#[trigger] spec_schema()[i]).required,
        forall|i: int| 0 <= i < 22 && i != 16 ==> !(#[trigger] spec_schema()[i]).positional,
        forall|i: int| 0 <= i < 22 && i != 15 ==> (#[trigger] spec_schema()[i]).arity != Arity::Append,
{
}

} // verus!

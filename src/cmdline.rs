//! Scanning of command-line options. `-l <endpoint>` sets the listen
//! endpoint, `-d <endpoint>` the broadcast destination, and `--help` or `-h`
//! asks for usage. The endpoint texts are handed on unparsed.
use vstd::prelude::*;

verus! {

/// One option found on the command line.
#[derive(Debug, PartialEq, Eq)]
pub enum Directive {
    /// Show usage and exit; nothing after it is read.
    Help,
    /// Listen on this endpoint.
    Listen(String),
    /// Send magic packets to this endpoint.
    Broadcast(String),
    /// An option that is not known, or one that lacks its value; nothing
    /// after it is read.
    Unknown(String),
}

/// A directive with its text as a sequence of characters.
pub ghost enum DirectiveView {
    Help,
    Listen(Seq<char>),
    Broadcast(Seq<char>),
    Unknown(Seq<char>),
}

impl View for Directive {
    type V = DirectiveView;

    open spec fn view(&self) -> DirectiveView {
        match self {
            Directive::Help => DirectiveView::Help,
            Directive::Listen(s) => DirectiveView::Listen(s@),
            Directive::Broadcast(s) => DirectiveView::Broadcast(s@),
            Directive::Unknown(s) => DirectiveView::Unknown(s@),
        }
    }
}

/// The arguments as sequences of characters.
pub open spec fn arg_texts(args: Seq<String>) -> Seq<Seq<char>> {
    args.map_values(|a: String| a@)
}

/// The directives that the arguments from position `pos` on give. A help
/// flag or an unknown option ends the scan; `-l` and `-d` take the next
/// argument as their value, and without one they are unknown options.
pub open spec fn scan_from(args: Seq<Seq<char>>, pos: int) -> Seq<DirectiveView>
    decreases args.len() - pos,
{
    if pos < 0 || pos >= args.len() {
        Seq::empty()
    } else if args[pos] == "--help"@ || args[pos] == "-h"@ {
        seq![DirectiveView::Help]
    } else if args[pos] == "-l"@ && pos + 1 < args.len() {
        seq![DirectiveView::Listen(args[pos + 1])] + scan_from(args, pos + 2)
    } else if args[pos] == "-d"@ && pos + 1 < args.len() {
        seq![DirectiveView::Broadcast(args[pos + 1])] + scan_from(args, pos + 2)
    } else {
        seq![DirectiveView::Unknown(args[pos])]
    }
}

/// `arg` reads exactly `word`.
fn is_word(arg: &String, word: &str) -> (r: bool)
    ensures
        r == (arg@ == word@),
{
    let a = arg.as_str();
    let n = a.unicode_len();
    if n != word.unicode_len() {
        return false;
    }
    let mut i: usize = 0;
    while i < n
        invariant
            n == a@.len(),
            n == word@.len(),
            a@ == arg@,
            0 <= i <= n,
            forall|j: int| 0 <= j < i ==> #[trigger] a@[j] == word@[j],
        decreases n - i,
    {
        if a.get_char(i) != word.get_char(i) {
            return false;
        }
        i = i + 1;
    }
    assert(a@ =~= word@);
    true
}

/// Scans the command line into the directives it gives, in order. The scan
/// stops after a help flag or an unknown option.
pub fn scan_command_line(args: &[String]) -> (r: Vec<Directive>)
    ensures
        r@.map_values(|d: Directive| d@) == scan_from(arg_texts(args@), 0),
{
    let ghost texts = arg_texts(args@);
    let mut out: Vec<Directive> = Vec::new();
    let mut pos: usize = 0;
    while pos < args.len()
        invariant
            texts == arg_texts(args@),
            texts.len() == args@.len(),
            pos <= args@.len(),
            out@.map_values(|d: Directive| d@) + scan_from(texts, pos as int) == scan_from(texts, 0),
        decreases args.len() - pos,
    {
        let opt = &args[pos];
        let has_value = pos + 1 < args.len();
        let ghost before = out@.map_values(|d: Directive| d@);
        if is_word(opt, "--help") || is_word(opt, "-h") {
            out.push(Directive::Help);
            assert(out@.map_values(|d: Directive| d@) =~= before + scan_from(texts, pos as int));
            return out;
        } else if is_word(opt, "-l") && has_value {
            out.push(Directive::Listen(args[pos + 1].clone()));
            assert(out@.map_values(|d: Directive| d@) + scan_from(texts, pos + 2) =~= before
                + scan_from(texts, pos as int));
            pos = pos + 2;
        } else if is_word(opt, "-d") && has_value {
            out.push(Directive::Broadcast(args[pos + 1].clone()));
            assert(out@.map_values(|d: Directive| d@) + scan_from(texts, pos + 2) =~= before
                + scan_from(texts, pos as int));
            pos = pos + 2;
        } else {
            out.push(Directive::Unknown(opt.clone()));
            assert(out@.map_values(|d: Directive| d@) =~= before + scan_from(texts, pos as int));
            return out;
        }
    }
    assert(out@.map_values(|d: Directive| d@) =~= scan_from(texts, 0));
    out
}

} // verus!

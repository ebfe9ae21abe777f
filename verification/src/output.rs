//! Messages shown to the user: their kinds, how one is rendered as a line
//! (prefix, colour, standard stream), and buffers that collect several.

use vstd::prelude::*;
use vstd::string::*;
use colored::Colorize;
use crate::text::{contains_seq, decimal, push_u64};

verus! {

/// The kind of a message shown to the user.
#[derive(Clone, Copy, Debug, PartialEq, Eq, Structural)]
pub enum GbOutputKind {
    Info,
    Error,
    Warning,
    Success,
}

/// The standard stream a message goes to.
#[derive(Clone, Copy, Debug, PartialEq, Eq, Structural)]
pub enum OutputStream {
    Stdout,
    Stderr,
}

/// The colour a message is shown in.
#[derive(Clone, Copy, Debug, PartialEq, Eq, Structural)]
pub enum OutputColor {
    Blue,
    Red,
    Yellow,
    Green,
}

impl OutputColor {
    /// The ANSI foreground code of the colour.
    pub open spec fn ansi_code(self) -> Seq<char> {
        match self {
            OutputColor::Blue => "34"@,
            OutputColor::Red => "31"@,
            OutputColor::Yellow => "33"@,
            OutputColor::Green => "32"@,
        }
    }
}

/// `text` wrapped in the ANSI sequences that set the foreground colour
/// `code` and reset it afterwards.
pub open spec fn ansi_colored(code: Seq<char>, text: Seq<char>) -> Seq<char> {
    "\x1B["@ + code + "m"@ + text + "\x1B[0m"@
}

/// `out` is `text` as the terminal colouring may leave it: unchanged when
/// colouring is off, or wrapped in the colour's sequences (when `text`
/// holds no reset sequence of its own).
pub open spec fn colored_form(out: Seq<char>, color: OutputColor, text: Seq<char>) -> bool {
    ||| out == text
    ||| contains_seq(text, "\x1B[0m"@)
    ||| out == ansi_colored(color.ansi_code(), text)
}

/// `text` in the foreground colour `color`, by `colored::Colorize::color`
/// and `to_string`. Whether `colored` colours at all depends on the
/// environment (`NO_COLOR`, `CLICOLOR`, `CLICOLOR_FORCE`) and on whether
/// standard output is a terminal, so the claim covers both outcomes: the
/// text unchanged, or wrapped in the colour's escape sequences. When the
/// text itself holds reset sequences, `colored` re-inserts the colour after
/// each; nothing is claimed of that case.
#[verifier::external_body]
fn colorize(text: &str, color: OutputColor) -> (r: String)
    ensures
        colored_form(r@, color, text@),
{
    let c = match color {
        OutputColor::Blue => colored::Color::Blue,
        OutputColor::Red => colored::Color::Red,
        OutputColor::Yellow => colored::Color::Yellow,
        OutputColor::Green => colored::Color::Green,
    };
    text.color(c).to_string()
}

impl GbOutputKind {
    /// Info and success messages go to standard output, errors and warnings
    /// to standard error.
    pub open spec fn stream_spec(self) -> OutputStream {
        match self {
            GbOutputKind::Info => OutputStream::Stdout,
            GbOutputKind::Error => OutputStream::Stderr,
            GbOutputKind::Warning => OutputStream::Stderr,
            GbOutputKind::Success => OutputStream::Stdout,
        }
    }

    pub open spec fn prefix_spec(self) -> Seq<char> {
        match self {
            GbOutputKind::Info => " [I]: "@,
            GbOutputKind::Error => " [E]: "@,
            GbOutputKind::Warning => " [W]: "@,
            GbOutputKind::Success => " [S]: "@,
        }
    }

    pub open spec fn color_spec(self) -> OutputColor {
        match self {
            GbOutputKind::Info => OutputColor::Blue,
            GbOutputKind::Error => OutputColor::Red,
            GbOutputKind::Warning => OutputColor::Yellow,
            GbOutputKind::Success => OutputColor::Green,
        }
    }

    /// The stream, prefix and colour of messages of this kind.
    pub fn formatted(&self) -> (r: (OutputStream, &'static str, OutputColor))
        ensures
            r.0 == self.stream_spec(),
            r.1@ == self.prefix_spec(),
            r.2 == self.color_spec(),
    {
        match self {
            GbOutputKind::Info => (OutputStream::Stdout, " [I]: ", OutputColor::Blue),
            GbOutputKind::Error => (OutputStream::Stderr, " [E]: ", OutputColor::Red),
            GbOutputKind::Warning => (OutputStream::Stderr, " [W]: ", OutputColor::Yellow),
            GbOutputKind::Success => (OutputStream::Stdout, " [S]: ", OutputColor::Green),
        }
    }
}

/// A line to print and the stream to print it on.
pub struct PrintLine {
    pub stream: OutputStream,
    pub text: String,
}

/// `l` is how a message of kind `kind` and text `message` is printed: on
/// the kind's stream, its prefix and the message in the kind's colour.
pub open spec fn rendered(l: PrintLine, kind: GbOutputKind, message: Seq<char>) -> bool {
    &&& l.stream == kind.stream_spec()
    &&& colored_form(l.text@, kind.color_spec(), kind.prefix_spec() + message)
}

/// Something that can be shown to the user.
pub trait GbOutputT {
    spec fn kind_spec(&self) -> Option<GbOutputKind>;

    spec fn message_spec(&self) -> Seq<char>;

    fn kind(&self) -> (r: Option<GbOutputKind>)
        ensures
            r == self.kind_spec(),
    ;

    fn message(&self) -> (r: &str)
        ensures
            r@ == self.message_spec(),
    ;

    /// The line that printing shows: none for an output without a kind.
    fn render(&self) -> (r: Option<PrintLine>)
        ensures
            r is Some <==> self.kind_spec() is Some,
            r matches Some(l) ==> rendered(l, self.kind_spec()->0, self.message_spec()),
    {
        match self.kind() {
            None => None,
            Some(k) => {
                let (stream, prefix, color) = k.formatted();
                let mut line = prefix.to_owned();
                line.append(self.message());
                let text = colorize(line.as_str(), color);
                Some(PrintLine { stream, text })
            },
        }
    }
}

/// One message of a given kind.
#[derive(Debug, Clone)]
pub struct GbSingleOutput {
    kind: GbOutputKind,
    message: String,
}

impl GbSingleOutput {
    pub fn new(kind: GbOutputKind, message: &str) -> (r: GbSingleOutput)
        ensures
            r.kind_spec() == Some(kind),
            r.message_spec() == message@,
    {
        GbSingleOutput { kind, message: message.to_owned() }
    }
}

impl GbOutputT for GbSingleOutput {
    closed spec fn kind_spec(&self) -> Option<GbOutputKind> {
        Some(self.kind)
    }

    closed spec fn message_spec(&self) -> Seq<char> {
        self.message@
    }

    fn kind(&self) -> (r: Option<GbOutputKind>) {
        Some(self.kind)
    }

    fn message(&self) -> (r: &str) {
        self.message.as_str()
    }
}

/// The summary text of a buffer of `n` outputs.
pub open spec fn buffered_message(n: nat) -> Seq<char> {
    "GbBufferedOutput("@ + decimal(n as int) + " elements)"@
}

/// Outputs collected to be shown together, in the order they were added.
pub struct GbBufferedOutput {
    outputs: Vec<GbOutput>,
    message: String,
}

impl GbBufferedOutput {
    /// The outputs collected so far.
    pub closed spec fn outputs_spec(&self) -> Seq<GbOutput> {
        self.outputs@
    }

    /// The summary text counts the collected outputs.
    pub open spec fn wf(&self) -> bool {
        self.message_spec() == buffered_message(self.outputs_spec().len())
    }

    pub fn new() -> (r: GbBufferedOutput)
        ensures
            r.wf(),
            r.outputs_spec() == Seq::<GbOutput>::empty(),
    {
        let mut message = "GbBufferedOutput(".to_owned();
        push_u64(&mut message, 0);
        message.append(" elements)");
        GbBufferedOutput { outputs: Vec::new(), message }
    }

    /// Adds `output` after those collected so far and updates the summary.
    pub fn add(&mut self, output: GbOutput)
        requires
            old(self).wf(),
        ensures
            final(self).wf(),
            final(self).outputs_spec() == old(self).outputs_spec().push(output),
            leaves_of_seq(final(self).outputs_spec()) == leaves_of_seq(old(self).outputs_spec())
                + leaves(output),
    {
        let ghost prev = self.outputs@;
        let ghost added = output;
        self.outputs.push(output);
        proof {
            lemma_leaves(added, prev, added);
        }
        let n = self.outputs.len();
        let mut message = "GbBufferedOutput(".to_owned();
        push_u64(&mut message, n as u64);
        message.append(" elements)");
        self.message = message;
    }

    /// The collected outputs, to be shown one after the other.
    pub fn outputs(&self) -> (r: &Vec<GbOutput>)
        ensures
            r@ == self.outputs_spec(),
    {
        &self.outputs
    }
}

impl Default for GbBufferedOutput {
    fn default() -> (r: GbBufferedOutput)
        ensures
            r.wf(),
            r.outputs_spec() == Seq::<GbOutput>::empty(),
    {
        GbBufferedOutput::new()
    }
}

impl GbOutputT for GbBufferedOutput {
    open spec fn kind_spec(&self) -> Option<GbOutputKind> {
        None
    }

    closed spec fn message_spec(&self) -> Seq<char> {
        self.message@
    }

    fn kind(&self) -> (r: Option<GbOutputKind>) {
        None
    }

    fn message(&self) -> (r: &str) {
        self.message.as_str()
    }
}

/// A single message or a buffer of outputs.
pub enum GbOutput {
    Single(GbSingleOutput),
    Buffered(GbBufferedOutput),
}

impl GbOutputT for GbOutput {
    open spec fn kind_spec(&self) -> Option<GbOutputKind> {
        match self {
            GbOutput::Single(s) => s.kind_spec(),
            GbOutput::Buffered(b) => b.kind_spec(),
        }
    }

    open spec fn message_spec(&self) -> Seq<char> {
        match self {
            GbOutput::Single(s) => s.message_spec(),
            GbOutput::Buffered(b) => b.message_spec(),
        }
    }

    fn kind(&self) -> (r: Option<GbOutputKind>) {
        match self {
            GbOutput::Single(s) => s.kind(),
            GbOutput::Buffered(b) => b.kind(),
        }
    }

    fn message(&self) -> (r: &str) {
        match self {
            GbOutput::Single(s) => s.message(),
            GbOutput::Buffered(b) => b.message(),
        }
    }
}

/// The single messages that showing `o` prints, in order: a single message
/// itself; for a buffer, those of each of its outputs in turn.
pub closed spec fn leaves(o: GbOutput) -> Seq<GbSingleOutput>
    decreases o,
{
    match o {
        GbOutput::Single(s) => seq![s],
        GbOutput::Buffered(b) => {
            proof {
                assert(decreases_to!(o => b));
                assert(decreases_to!(b => b.outputs));
                assert(decreases_to!(b.outputs => b.outputs@));
            }
            leaves_of_seq(b.outputs@)
        },
    }
}

/// The single messages that showing each of `s` in turn prints.
pub closed spec fn leaves_of_seq(s: Seq<GbOutput>) -> Seq<GbSingleOutput>
    decreases s,
{
    if s.len() == 0 {
        seq![]
    } else {
        proof {
            assert(decreases_to!(s => s[s.len() - 1]));
            assert(decreases_to!(s => s.subrange(0, s.len() - 1)));
        }
        leaves_of_seq(s.subrange(0, s.len() - 1)) + leaves(s[s.len() - 1])
    }
}

/// What the leaves are: a single message prints itself; a buffer prints
/// what its outputs print, in order; nothing for no outputs, and adding an
/// output after others adds what it prints after theirs.
pub proof fn lemma_leaves(o: GbOutput, s: Seq<GbOutput>, x: GbOutput)
    ensures
        o matches GbOutput::Single(m) ==> leaves(o) == seq![m],
        o matches GbOutput::Buffered(b) ==> leaves(o) == leaves_of_seq(b.outputs_spec()),
        leaves_of_seq(Seq::<GbOutput>::empty()) == Seq::<GbSingleOutput>::empty(),
        leaves_of_seq(s.push(x)) == leaves_of_seq(s) + leaves(x),
{
    assert(s.push(x).subrange(0, s.len() as int) =~= s);
}

/// `lines` are how `msgs` are printed, one line for each, in order.
pub open spec fn renders(lines: Seq<PrintLine>, msgs: Seq<GbSingleOutput>) -> bool {
    &&& lines.len() == msgs.len()
    &&& forall|i: int|
        0 <= i < lines.len() ==> #[trigger] rendered(
            lines[i],
            msgs[i].kind_spec()->0,
            msgs[i].message_spec(),
        )
}

fn push_lines(o: &GbOutput, out: &mut Vec<PrintLine>)
    ensures
        final(out)@.len() >= old(out)@.len(),
        final(out)@.subrange(0, old(out)@.len() as int) == old(out)@,
        renders(
            final(out)@.subrange(old(out)@.len() as int, final(out)@.len() as int),
            leaves(*o),
        ),
    decreases o,
{
    let ghost start = out@.len();
    match o {
        GbOutput::Single(s) => {
            match s.render() {
                Some(line) => {
                    out.push(line);
                },
                None => {},
            }
            assert(out@.subrange(0, start as int) =~= old(out)@);
            assert(out@.subrange(start as int, out@.len() as int) =~= seq![out@[start as int]]);
        },
        GbOutput::Buffered(b) => {
            let n = b.outputs.len();
            let mut i: usize = 0;
            assert(b.outputs@.subrange(0, 0) =~= Seq::<GbOutput>::empty());
            assert(out@.subrange(start as int, out@.len() as int) =~= Seq::<PrintLine>::empty());
            while i < n
                invariant
                    *o == GbOutput::Buffered(*b),
                    i <= n,
                    n == b.outputs@.len(),
                    out@.len() >= start,
                    start == old(out)@.len(),
                    out@.subrange(0, start as int) == old(out)@,
                    renders(
                        out@.subrange(start as int, out@.len() as int),
                        leaves_of_seq(b.outputs@.subrange(0, i as int)),
                    ),
                decreases n - i,
            {
                let ghost before = out@;
                let ghost done = leaves_of_seq(b.outputs@.subrange(0, i as int));
                proof {
                    assert(decreases_to!(*o => (*o)->Buffered_0));
                    assert(decreases_to!(b => b.outputs));
                    assert(decreases_to!(b.outputs => b.outputs@));
                    assert(decreases_to!(b.outputs@ => b.outputs@[i as int]));
                }
                push_lines(&b.outputs[i], out);
                let ghost added = leaves(b.outputs@[i as int]);
                assert(b.outputs@.subrange(0, i + 1).subrange(0, i as int) =~= b.outputs@.subrange(
                    0,
                    i as int,
                ));
                assert(leaves_of_seq(b.outputs@.subrange(0, i + 1)) == done + added);
                assert(out@.subrange(0, start as int) =~= before.subrange(0, start as int));
                assert(out@.subrange(0, before.len() as int) == before);
                let ghost mid = before.subrange(start as int, before.len() as int);
                let ghost tail = out@.subrange(before.len() as int, out@.len() as int);
                assert(out@.subrange(start as int, out@.len() as int) =~= mid + tail);
                assert forall|k: int| 0 <= k < (mid + tail).len() implies #[trigger] rendered(
                    (mid + tail)[k],
                    (done + added)[k].kind_spec()->0,
                    (done + added)[k].message_spec(),
                ) by {
                    if k < mid.len() {
                        assert((mid + tail)[k] == mid[k]);
                        assert((done + added)[k] == done[k]);
                    } else {
                        assert((mid + tail)[k] == tail[k - mid.len()]);
                        assert((done + added)[k] == added[k - mid.len()]);
                    }
                }
                i = i + 1;
            }
            assert(b.outputs@.subrange(0, n as int) =~= b.outputs@);
        },
    }
}

impl GbOutput {
    /// The lines that showing this output prints, in order: one for a single
    /// message; for a buffer, those of each of its outputs in turn.
    pub fn render_all(&self) -> (r: Vec<PrintLine>)
        ensures
            renders(r@, leaves(*self)),
    {
        let mut out: Vec<PrintLine> = Vec::new();
        push_lines(self, &mut out);
        assert(out@.subrange(0, out@.len() as int) =~= out@);
        out
    }
}

} // verus!

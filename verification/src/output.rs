//! The buffer that captures what a script prints and writes.
use crate::value::{models, GuestValue, ValueKind, ValueModel};
use vstd::prelude::*;
use vstd::string::StringExecFns;

verus! {

/// The texts of `values`, separated by tab characters.
pub open spec fn tab_joined(values: Seq<ValueModel>) -> Seq<char>
    decreases values.len(),
{
    if values.len() == 0 {
        Seq::empty()
    } else if values.len() == 1 {
        values[0].rendered()
    } else {
        tab_joined(values.drop_last()) + seq!['\t'] + values.last().rendered()
    }
}

/// What one call of the line sink appends: the texts separated by tabs, then a newline.
pub open spec fn print_line(values: Seq<ValueModel>) -> Seq<char> {
    tab_joined(values) + seq!['\n']
}

/// The texts of `values`, one after the other with nothing between them.
pub open spec fn concatenated(values: Seq<ValueModel>) -> Seq<char>
    decreases values.len(),
{
    if values.len() == 0 {
        Seq::empty()
    } else {
        concatenated(values.drop_last()) + values.last().rendered()
    }
}

/// Every value of the list is of a primitive kind.
pub open spec fn all_primitive(values: Seq<ValueModel>) -> bool {
    forall|i: int| 0 <= i < values.len() ==> (#[trigger] values[i]).kind().is_primitive()
}

/// `at` is the position of the first value that is not of a primitive kind.
pub open spec fn first_rejected(values: Seq<ValueModel>, at: int) -> bool {
    &&& 0 <= at < values.len()
    &&& !values[at].kind().is_primitive()
    &&& forall|i: int| 0 <= i < at ==> (#[trigger] values[i]).kind().is_primitive()
}

/// The line that separates captured output from the text of the returned value.
pub open spec fn return_separator() -> Seq<char> {
    "-- return --\n"@
}

/// Captured output followed by the text of the returned value, with the
/// separator line between them when there is any output.
pub open spec fn transcript_of(output: Seq<char>, returned: Seq<char>) -> Seq<char> {
    if output.len() == 0 {
        returned
    } else {
        output + return_separator() + returned
    }
}

/// Why the concatenating sink refused its arguments.
#[derive(Clone, Copy, Debug, PartialEq, Eq, Structural)]
pub struct WriteError {
    /// The position of the first argument that cannot be written.
    pub position: usize,
    /// The kind of that argument.
    pub kind: ValueKind,
}

impl WriteError {
    /// The message of the error.
    pub open spec fn message_text() -> Seq<char> {
        "io.write expects string or number"@
    }

    /// The message that the script sees.
    pub fn message(&self) -> (s: String)
        ensures
            s@ == Self::message_text(),
    {
        String::from_str("io.write expects string or number")
    }
}

/// All the text that a run has produced so far, in the order it was produced.
pub struct OutputBuffer {
    text: String,
}

impl View for OutputBuffer {
    type V = Seq<char>;

    closed spec fn view(&self) -> Seq<char> {
        self.text@
    }
}

impl OutputBuffer {
    /// An empty buffer.
    pub fn new() -> (b: OutputBuffer)
        ensures
            b@ == Seq::<char>::empty(),
    {
        OutputBuffer { text: String::new() }
    }

    /// Whether nothing has been captured yet.
    pub fn is_empty(&self) -> (b: bool)
        ensures
            b == (self@.len() == 0),
    {
        self.text.as_str().is_empty()
    }

    /// The captured text.
    pub fn contents(&self) -> (s: String)
        ensures
            s@ == self@,
    {
        self.text.clone()
    }

    /// The line sink: appends the texts of `values` separated by tabs, then a newline.
    pub fn print(&mut self, values: &Vec<GuestValue>)
        ensures
            final(self)@ == old(self)@ + print_line(models(values@)),
    {
        let ghost all = models(values@);
        let mut line = String::new();
        let mut i: usize = 0;
        while i < values.len()
            invariant
                i <= values.len(),
                all == models(values@),
                line@ == tab_joined(all.take(i as int)),
            decreases values.len() - i,
        {
            proof {
                let next = all.take(i + 1);
                assert(next.drop_last() =~= all.take(i as int));
                assert(next.last() == values@[i as int]@);
            }
            if i > 0 {
                line.push('\t');
            }
            let piece = values[i].render();
            line.append(piece.as_str());
            i += 1;
        }
        assert(all.take(i as int) =~= all);
        line.push('\n');
        self.text.append(line.as_str());
    }

    /// The concatenating sink: appends the texts of `values` with nothing
    /// between or after them. Only values of primitive kinds can be written:
    /// with any other among them nothing is appended.
    pub fn write(&mut self, values: &Vec<GuestValue>) -> (r: Result<(), WriteError>)
        ensures
            r is Ok <==> all_primitive(models(values@)),
            r is Ok ==> final(self)@ == old(self)@ + concatenated(models(values@)),
            r matches Err(e) ==> {
                &&& final(self)@ == old(self)@
                &&& first_rejected(models(values@), e.position as int)
                &&& e.kind == values@[e.position as int]@.kind()
            },
    {
        let ghost all = models(values@);
        let mut piece_all = String::new();
        let mut i: usize = 0;
        while i < values.len()
            invariant
                i <= values.len(),
                all == models(values@),
                piece_all@ == concatenated(all.take(i as int)),
                forall|j: int| 0 <= j < i ==> (#[trigger] all[j]).kind().is_primitive(),
            decreases values.len() - i,
        {
            let kind = values[i].kind();
            if !kind.primitive() {
                assert(all[i as int] == values@[i as int]@);
                return Err(WriteError { position: i, kind });
            }
            proof {
                let next = all.take(i + 1);
                assert(next.drop_last() =~= all.take(i as int));
                assert(next.last() == values@[i as int]@);
            }
            let piece = values[i].render();
            piece_all.append(piece.as_str());
            i += 1;
        }
        assert(all.take(i as int) =~= all);
        self.text.append(piece_all.as_str());
        Ok(())
    }

    /// The captured output followed by the text of the returned value, with
    /// the separator line between them when any output was captured.
    pub fn transcript(&self, returned: &str) -> (s: String)
        ensures
            s@ == transcript_of(self@, returned@),
    {
        if self.is_empty() {
            String::from_str(returned)
        } else {
            let mut s = self.text.clone();
            s.append("-- return --\n");
            s.append(returned);
            s
        }
    }
}

} // verus!

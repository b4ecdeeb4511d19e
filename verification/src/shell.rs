//! Command parsing for the interactive line shell.
//!
//! The console I/O around it — the prompt, echoing, the command table —
//! belongs to the embedding program; parsing a typed line into its
//! arguments is pure and proved here.

use vstd::prelude::*;

verus! {

/// Why a typed line was not a command.
#[derive(Clone, Copy, Debug, PartialEq, Eq, Structural)]
pub enum ParseError {
    /// The line holds no argument at all.
    Empty,
    /// The line holds more arguments than the buffer can hold.
    TooManyArgs,
}

/// The arguments of the line, accumulated left to right: bytes other
/// than spaces extend the current argument, and a space closes it.
pub open spec fn spec_args(s: Seq<u8>, i: int, cur: Seq<u8>, acc: Seq<Seq<u8>>) -> Seq<Seq<u8>>
    decreases s.len() - i,
{
    if i < 0 || i >= s.len() {
        if cur.len() > 0 {
            acc.push(cur)
        } else {
            acc
        }
    } else if s[i] == 0x20 {
        if cur.len() > 0 {
            spec_args(s, i + 1, Seq::empty(), acc.push(cur))
        } else {
            spec_args(s, i + 1, cur, acc)
        }
    } else {
        spec_args(s, i + 1, cur.push(s[i]), acc)
    }
}

/// The space-separated arguments of a line.
pub open spec fn spec_tokens(s: Seq<u8>) -> Seq<Seq<u8>> {
    spec_args(s, 0, Seq::empty(), Seq::empty())
}

/// A single parsed shell command: its arguments, in order, the first of
/// which names the command.
#[derive(Clone, Debug, PartialEq, Eq)]
pub struct Command {
    pub args: Vec<Vec<u8>>,
}

impl Command {
    /// A command always has at least its name.
    pub open spec fn wf(&self) -> bool {
        self.args@.len() >= 1
    }

    /// Parses a command line: the space-separated words of `line` become
    /// the arguments. A line with no words at all is refused with
    /// `Empty`; one with more than `max_args` words is refused with
    /// `TooManyArgs`.
    pub fn parse(line: &Vec<u8>, max_args: usize) -> (r: Result<Command, ParseError>)
        ensures
            r == Err::<Command, ParseError>(ParseError::Empty) <==> spec_tokens(line@).len() == 0,
            r == Err::<Command, ParseError>(ParseError::TooManyArgs) <==> spec_tokens(
                line@,
            ).len() > max_args,
            r matches Ok(c) ==> {
                &&& c.wf()
                &&& c.args@.len() == spec_tokens(line@).len()
                &&& forall|k: int|
                    0 <= k < c.args@.len() ==> (#[trigger] c.args@[k])@ == spec_tokens(line@)[k]
            },
    {
        let n = line.len();
        let mut cur: Vec<u8> = Vec::new();
        let mut acc: Vec<Vec<u8>> = Vec::new();
        let mut i: usize = 0;
        proof {
            assert(acc@.map_values(|v: Vec<u8>| v@) =~= Seq::<Seq<u8>>::empty());
            assert(cur@ =~= Seq::<u8>::empty());
        }
        while i < n
            invariant
                n == line@.len(),
                i <= n,
                spec_tokens(line@) == spec_args(
                    line@,
                    i as int,
                    cur@,
                    acc@.map_values(|v: Vec<u8>| v@),
                ),
            decreases n - i,
        {
            let b = line[i];
            let ghost pre_cur = cur@;
            let ghost pre_map = acc@.map_values(|v: Vec<u8>| v@);
            i = i + 1;
            if b == 0x20 {
                if cur.len() > 0 {
                    let done = cur;
                    cur = Vec::new();
                    acc.push(done);
                    proof {
                        assert(acc@.map_values(|v: Vec<u8>| v@) =~= pre_map.push(pre_cur));
                    }
                }
            } else {
                cur.push(b);
            }
        }
        let ghost pre_map = acc@.map_values(|v: Vec<u8>| v@);
        let ghost pre_cur = cur@;
        if cur.len() > 0 {
            acc.push(cur);
            proof {
                assert(acc@.map_values(|v: Vec<u8>| v@) =~= pre_map.push(pre_cur));
            }
        }
        if acc.len() == 0 {
            return Err(ParseError::Empty);
        }
        if acc.len() > max_args {
            return Err(ParseError::TooManyArgs);
        }
        Ok(Command { args: acc })
    }

    /// The command's path: its first argument.
    pub fn path(&self) -> (r: &Vec<u8>)
        requires
            self.wf(),
        ensures
            r@ == self.args@[0]@,
    {
        &self.args[0]
    }
}

/// What the terminal side must do after one typed byte is handled.
#[derive(Clone, Debug, PartialEq, Eq)]
pub enum LineAction {
    /// The line is complete: echo a line break, hand the buffer to the
    /// command parser, and start over.
    Submit,
    /// Echo these bytes back to the terminal.
    Echo(Vec<u8>),
    /// The byte was swallowed (a backspace on an empty line, or a
    /// printable byte that no longer fits): echo nothing.
    Ignore,
    /// The byte is not visible input: sound the terminal bell.
    Bell,
}

/// The line editor of the interactive shell: the bytes typed so far and
/// the fixed capacity of the line buffer.
///
/// Each typed byte is one step of a pure state machine; the terminal
/// reads, echoes and bells around it belong to the embedding program.
pub struct LineEditor {
    buffer: Vec<u8>,
    capacity: usize,
}

impl LineEditor {
    /// The bytes of the line typed so far.
    pub closed spec fn line(&self) -> Seq<u8> {
        self.buffer@
    }

    /// The fixed buffer capacity.
    pub closed spec fn spec_capacity(&self) -> int {
        self.capacity as int
    }

    /// The line never outgrows the buffer.
    pub closed spec fn wf(&self) -> bool {
        self.buffer@.len() <= self.capacity
    }

    /// An empty line over a buffer of `capacity` bytes.
    pub fn new(capacity: usize) -> (r: LineEditor)
        ensures
            r.wf(),
            r.spec_capacity() == capacity,
            r.line().len() == 0,
    {
        LineEditor { buffer: Vec::new(), capacity }
    }

    /// The line typed so far.
    pub fn line_bytes(&self) -> (r: &Vec<u8>)
        ensures
            r@ == self.line(),
    {
        &self.buffer
    }

    /// Clears the line for the next prompt.
    pub fn clear(&mut self)
        ensures
            final(self).wf(),
            final(self).spec_capacity() == old(self).spec_capacity(),
            final(self).line().len() == 0,
    {
        self.buffer.clear();
    }

    /// Handles one typed byte.
    ///
    /// A carriage return or line feed submits the line. A backspace or
    /// delete removes the last byte and asks the terminal to erase it,
    /// or is ignored on an empty line. A visible character is appended
    /// and echoed, or ignored when the buffer is full. Anything else
    /// rings the bell. Only an appended or erased byte changes the line.
    pub fn handle_byte(&mut self, b: u8) -> (r: LineAction)
        requires
            old(self).wf(),
        ensures
            final(self).wf(),
            final(self).spec_capacity() == old(self).spec_capacity(),
            b == 0x0d || b == 0x0a ==> r == LineAction::Submit && final(self).line() == old(
                self,
            ).line(),
            (b == 0x08 || b == 0x7f) && old(self).line().len() > 0 ==> (r matches LineAction::Echo(e)
                && e@ =~= seq![0x08u8, 0x20u8, 0x08u8]) && final(self).line() =~= old(
                self,
            ).line().drop_last(),
            (b == 0x08 || b == 0x7f) && old(self).line().len() == 0 ==> r == LineAction::Ignore
                && final(self).line() == old(self).line(),
            0x20 <= b < 0x7f && old(self).line().len() < old(self).spec_capacity() ==> (r
                matches LineAction::Echo(e) && e@ =~= seq![b]) && final(self).line() =~= old(
                self,
            ).line().push(b),
            0x20 <= b < 0x7f && old(self).line().len() >= old(self).spec_capacity() ==> r
                == LineAction::Ignore && final(self).line() == old(self).line(),
            !(b == 0x0d || b == 0x0a || b == 0x08 || b == 0x7f || 0x20 <= b < 0x7f) ==> r
                == LineAction::Bell && final(self).line() == old(self).line(),
    {
        if b == 0x0d || b == 0x0a {
            LineAction::Submit
        } else if b == 0x08 || b == 0x7f {
            if self.buffer.len() > 0 {
                let n = self.buffer.len();
                self.buffer.remove(n - 1);
                proof {
                    assert(self.buffer@ =~= old(self).line().drop_last());
                }
                let mut echo: Vec<u8> = Vec::new();
                echo.push(0x08);
                echo.push(0x20);
                echo.push(0x08);
                LineAction::Echo(echo)
            } else {
                LineAction::Ignore
            }
        } else if 0x20 <= b && b < 0x7f {
            if self.buffer.len() < self.capacity {
                self.buffer.push(b);
                let mut echo: Vec<u8> = Vec::new();
                echo.push(b);
                LineAction::Echo(echo)
            } else {
                LineAction::Ignore
            }
        } else {
            LineAction::Bell
        }
    }
}

} // verus!

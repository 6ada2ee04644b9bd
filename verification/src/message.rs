//! The three kinds of record that a timer produces and the text they carry.

use crate::level::Level;
use vstd::prelude::*;
use vstd::string::*;

verus! {

/// The point in a timer's life that a record reports. It becomes the
/// target of the record.
#[derive(Clone, Copy, Debug, PartialEq, Eq, Structural)]
pub enum TimerTarget {
    Starting,
    Executing,
    Finished,
}

impl TimerTarget {
    /// The target string under which records of this kind are logged.
    pub open spec fn label(self) -> Seq<char> {
        match self {
            TimerTarget::Starting => "TimerStarting"@,
            TimerTarget::Executing => "TimerExecuting"@,
            TimerTarget::Finished => "TimerFinished"@,
        }
    }

    /// The target string under which records of this kind are logged.
    pub fn as_str(self) -> (r: &'static str)
        ensures
            r@ == self.label(),
    {
        match self {
            TimerTarget::Starting => "TimerStarting",
            TimerTarget::Executing => "TimerExecuting",
            TimerTarget::Finished => "TimerFinished",
        }
    }
}

/// One record as it was handed to the logger.
pub struct Emitted {
    pub level: Level,
    pub target: TimerTarget,
    pub file: Seq<char>,
    pub module: Seq<char>,
    pub line: u32,
    pub message: Seq<char>,
}

/// An optional trailing field of a message: a comma, a space and the text,
/// or nothing.
pub open spec fn field(text: Option<Seq<char>>) -> Seq<char> {
    match text {
        Some(t) => ", "@ + t,
        None => Seq::empty(),
    }
}

/// The elapsed-time field of a message, or nothing where no time is
/// reported.
pub open spec fn elapsed_field(elapsed: Option<Seq<char>>) -> Seq<char> {
    match elapsed {
        Some(e) => ", Elapsed="@ + e,
        None => Seq::empty(),
    }
}

/// The message of a record: the timer's name, then the elapsed time, the
/// extra information given when the timer was opened and the arguments of
/// this call, each of the three only where it is present.
pub open spec fn message_text(
    name: Seq<char>,
    elapsed: Option<Seq<char>>,
    extra_info: Option<Seq<char>>,
    args: Option<Seq<char>>,
) -> Seq<char> {
    name + elapsed_field(elapsed) + field(extra_info) + field(args)
}

/// Every message starts with the name of its timer.
pub proof fn message_starts_with_name(
    name: Seq<char>,
    elapsed: Option<Seq<char>>,
    extra_info: Option<Seq<char>>,
    args: Option<Seq<char>>,
)
    ensures
        name.is_prefix_of(message_text(name, elapsed, extra_info, args)),
{
    let message = message_text(name, elapsed, extra_info, args);
    assert(message.subrange(0, name.len() as int) =~= name);
}

/// Appends `", "` and `text` to `out` where `text` is present.
fn push_field(out: &mut String, text: Option<&str>)
    ensures
        final(out)@ == old(out)@ + field(text.deep_view()),
{
    match text {
        Some(t) => {
            let ghost before = out@;
            out.append(", ");
            out.append(t);
            assert(out@ =~= before + (", "@ + t@));
        },
        None => {
            assert(out@ =~= out@ + Seq::<char>::empty());
        },
    }
}

/// Builds the message of a record.
pub fn render(name: &str, elapsed: Option<&str>, extra_info: Option<&str>, args: Option<&str>) -> (s:
    String)
    ensures
        s@ == message_text(name@, elapsed.deep_view(), extra_info.deep_view(), args.deep_view()),
{
    let mut out = String::from_str(name);
    match elapsed {
        Some(e) => {
            out.append(", Elapsed=");
            out.append(e);
            assert(out@ =~= name@ + (", Elapsed="@ + e@));
        },
        None => {
            assert(out@ =~= name@ + Seq::<char>::empty());
        },
    }
    push_field(&mut out, extra_info);
    push_field(&mut out, args);
    out
}

} // verus!

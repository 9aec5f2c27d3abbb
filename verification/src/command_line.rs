//! Windows command lines.
//!
//! A Windows process gets its arguments as one line. An argument that is empty or holds a
//! blank, a tab or a quote is quoted, and backslashes before a quote are doubled, so that
//! the usual way of reading a line gives the arguments back.
use crate::fault::{ErrorKind, IoError};
use crate::spawn;
use vstd::prelude::*;

verus! {

pub const TAB: u16 = 9;

pub const BLANK: u16 = 32;

pub const QUOTE: u16 = 34;

pub const BACKSLASH: u16 = 92;

/// A unit several times.
pub open spec fn repeated(unit: u16, count: nat) -> Seq<u16> {
    Seq::new(count, |i: int| unit)
}

/// Whether an argument is quoted.
pub open spec fn needs_quotes(argument: Seq<u16>) -> bool {
    argument.len() == 0 || exists|i: int|
        0 <= i < argument.len() && is_special(#[trigger] argument[i])
}

/// Whether a unit has its argument quoted.
pub open spec fn is_special(unit: u16) -> bool {
    unit == TAB || unit == BLANK || unit == QUOTE
}

/// An argument inside its quotes, and how many backslashes at its end are not written
/// yet.
pub open spec fn body(argument: Seq<u16>) -> (Seq<u16>, nat)
    decreases argument.len(),
{
    if argument.len() == 0 {
        (Seq::empty(), 0)
    } else {
        let (written, backslashes) = body(argument.drop_last());
        let unit = argument.last();
        if unit == BACKSLASH {
            (written, backslashes + 1)
        } else if unit == QUOTE {
            (written + repeated(BACKSLASH, 2 * backslashes + 1).push(QUOTE), 0)
        } else {
            (written + repeated(BACKSLASH, backslashes).push(unit), 0)
        }
    }
}

/// An argument as it stands in a command line.
pub open spec fn quoted(argument: Seq<u16>) -> Seq<u16> {
    if needs_quotes(argument) {
        let (written, backslashes) = body(argument);
        seq![QUOTE] + written + repeated(BACKSLASH, 2 * backslashes).push(QUOTE)
    } else {
        argument
    }
}

/// Arguments as one line, separated by blanks.
pub open spec fn line_of(arguments: Seq<Seq<u16>>) -> Seq<u16>
    decreases arguments.len(),
{
    if arguments.len() == 0 {
        Seq::empty()
    } else if arguments.len() == 1 {
        quoted(arguments[0])
    } else {
        line_of(arguments.drop_last()).push(BLANK) + quoted(arguments.last())
    }
}

/// How far a line has been read.
#[verifier::ext_equal]
pub ghost struct Reading {
    pub arguments: Seq<Seq<u16>>,
    pub current: Seq<u16>,
    pub backslashes: nat,
    pub inside: bool,
    pub in_quotes: bool,
}

/// A line before it is read.
pub open spec fn unread() -> Reading {
    Reading {
        arguments: Seq::empty(),
        current: Seq::empty(),
        backslashes: 0,
        inside: false,
        in_quotes: false,
    }
}

/// Reads one unit. A quote behind an even number of backslashes opens or closes quotes,
/// behind an odd number it is itself; each pair of the backslashes before it is one.
pub open spec fn read_unit(state: Reading, unit: u16) -> Reading {
    if unit == BACKSLASH {
        Reading { backslashes: state.backslashes + 1, inside: true, ..state }
    } else if unit == QUOTE {
        let halved = state.current + repeated(BACKSLASH, state.backslashes / 2);
        if state.backslashes % 2 == 0 {
            Reading {
                current: halved,
                backslashes: 0,
                inside: true,
                in_quotes: !state.in_quotes,
                ..state
            }
        } else {
            Reading { current: halved.push(QUOTE), backslashes: 0, inside: true, ..state }
        }
    } else if (unit == BLANK || unit == TAB) && !state.in_quotes {
        if state.inside {
            Reading { arguments: state.arguments.push(complete(state)), ..unread() }
        } else {
            state
        }
    } else {
        Reading { current: complete(state).push(unit), backslashes: 0, inside: true, ..state }
    }
}

/// The current argument with the backslashes at its end.
pub open spec fn complete(state: Reading) -> Seq<u16> {
    state.current + repeated(BACKSLASH, state.backslashes)
}

/// Reads units.
pub open spec fn read(state: Reading, units: Seq<u16>) -> Reading
    decreases units.len(),
{
    if units.len() == 0 {
        state
    } else {
        read_unit(read(state, units.drop_last()), units.last())
    }
}

/// The arguments of a line.
pub open spec fn arguments_of(line: Seq<u16>) -> Seq<Seq<u16>> {
    let state = read(unread(), line);
    if state.inside {
        state.arguments.push(complete(state))
    } else {
        state.arguments
    }
}

/// Reading two parts is reading the whole.
proof fn read_in_parts(state: Reading, first: Seq<u16>, second: Seq<u16>)
    ensures
        read(state, first + second) == read(read(state, first), second),
    decreases second.len(),
{
    if second.len() == 0 {
        assert(first + second =~= first);
    } else {
        assert((first + second).drop_last() =~= first + second.drop_last());
        read_in_parts(state, first, second.drop_last());
    }
}

/// Reading one unit more.
proof fn read_push(state: Reading, units: Seq<u16>, unit: u16)
    ensures
        read(state, units.push(unit)) == read_unit(read(state, units), unit),
{
    assert(units.push(unit).drop_last() =~= units);
}

/// Reading backslashes counts them.
proof fn read_backslashes(state: Reading, count: nat)
    ensures
        read(state, repeated(BACKSLASH, count)) == (Reading {
            backslashes: state.backslashes + count,
            inside: state.inside || count > 0,
            ..state
        }),
    decreases count,
{
    if count > 0 {
        let fewer = repeated(BACKSLASH, (count - 1) as nat);
        assert(repeated(BACKSLASH, count) =~= fewer.push(BACKSLASH));
        read_backslashes(state, (count - 1) as nat);
        read_push(state, fewer, BACKSLASH);
    }
}

/// Reading an argument that is not quoted.
proof fn read_plain(state: Reading, argument: Seq<u16>)
    requires
        state == (Reading { arguments: state.arguments, ..unread() }),
        forall|i: int| 0 <= i < argument.len() ==> !is_special(#[trigger] argument[i]),
    ensures
        ({
            let after = read(state, argument);
            &&& after.arguments == state.arguments
            &&& complete(after) == argument
            &&& after.inside == (argument.len() > 0)
            &&& !after.in_quotes
        }),
    decreases argument.len(),
{
    if argument.len() == 0 {
        assert(complete(state) =~= argument);
    } else {
        let front = argument.drop_last();
        let unit = argument.last();
        assert forall|i: int| 0 <= i < front.len() implies !is_special(#[trigger] front[i]) by {
            assert(front[i] == argument[i]);
        }
        read_plain(state, front);
        let before = read(state, front);
        let after = read(state, argument);
        assert(!is_special(argument[argument.len() - 1]));
        assert(after == read_unit(before, unit));
        if unit == BACKSLASH {
            assert(complete(after) =~= complete(before).push(BACKSLASH));
        } else {
            assert(complete(after) =~= complete(before).push(unit));
        }
        assert(front.push(unit) =~= argument);
    }
}

/// Reading the inside of quotes.
proof fn read_body(state: Reading, argument: Seq<u16>)
    requires
        state == (Reading {
            arguments: state.arguments,
            inside: true,
            in_quotes: true,
            ..unread()
        }),
    ensures
        ({
            let (written, backslashes) = body(argument);
            let after = read(state, written);
            &&& after == (Reading { current: after.current, ..state })
            &&& after.current + repeated(BACKSLASH, backslashes) == argument
        }),
    decreases argument.len(),
{
    let (written, backslashes) = body(argument);
    if argument.len() == 0 {
        assert(Seq::<u16>::empty() + repeated(BACKSLASH, 0) =~= argument);
    } else {
        let front = argument.drop_last();
        let unit = argument.last();
        let (earlier, pending) = body(front);
        read_body(state, front);
        let before = read(state, earlier);
        assert(front.push(unit) =~= argument);
        if unit == BACKSLASH {
            assert(before.current + repeated(BACKSLASH, pending + 1) =~= (before.current
                + repeated(BACKSLASH, pending)).push(BACKSLASH));
        } else {
            let count = if unit == QUOTE {
                2 * pending + 1
            } else {
                pending
            };
            let escape = repeated(BACKSLASH, count);
            read_in_parts(state, earlier, escape.push(unit));
            read_push(before, escape, unit);
            read_backslashes(before, count);
            let after = read(state, written);
            assert((2 * pending + 1) / 2 == pending && (2 * pending + 1) % 2 == 1);
            assert(after.current =~= argument);
            assert(after.current + repeated(BACKSLASH, 0) =~= argument);
        }
    }
}

/// Reading an argument as it stands in a line.
proof fn read_quoted(state: Reading, argument: Seq<u16>)
    requires
        state == (Reading { arguments: state.arguments, ..unread() }),
    ensures
        ({
            let after = read(state, quoted(argument));
            &&& after.arguments == state.arguments
            &&& complete(after) == argument
            &&& after.inside
            &&& !after.in_quotes
        }),
{
    if needs_quotes(argument) {
        let (written, backslashes) = body(argument);
        let opened = read_unit(state, QUOTE);
        let trail = repeated(BACKSLASH, 2 * backslashes);
        read_push(state, Seq::empty(), QUOTE);
        assert(Seq::<u16>::empty().push(QUOTE) =~= seq![QUOTE]);
        assert(opened.current =~= Seq::<u16>::empty());
        read_body(opened, argument);
        let inside = read(opened, written);
        read_in_parts(state, seq![QUOTE], written);
        read_in_parts(state, seq![QUOTE] + written, trail.push(QUOTE));
        read_push(inside, trail, QUOTE);
        read_backslashes(inside, 2 * backslashes);
        let after = read(state, quoted(argument));
        assert((2 * backslashes) / 2 == backslashes && (2 * backslashes) % 2 == 0);
        assert(complete(after) =~= argument);
    } else {
        assert forall|i: int| 0 <= i < argument.len() implies !is_special(
            #[trigger] argument[i],
        ) by {}
        read_plain(state, argument);
    }
}

/// How a line of arguments has been read: all but the last are complete, and that is at
/// its end.
proof fn read_line(arguments: Seq<Seq<u16>>)
    requires
        arguments.len() > 0,
    ensures
        ({
            let after = read(unread(), line_of(arguments));
            &&& after.arguments == arguments.drop_last()
            &&& complete(after) == arguments.last()
            &&& after.inside
            &&& !after.in_quotes
        }),
    decreases arguments.len(),
{
    if arguments.len() == 1 {
        read_quoted(unread(), arguments[0]);
        assert(arguments.drop_last() =~= Seq::<Seq<u16>>::empty());
    } else {
        let front = arguments.drop_last();
        read_line(front);
        let before = read(unread(), line_of(front));
        read_push(unread(), line_of(front), BLANK);
        let separated = read_unit(before, BLANK);
        assert(front.drop_last().push(front.last()) =~= front);
        read_quoted(separated, arguments.last());
        read_in_parts(unread(), line_of(front).push(BLANK), quoted(arguments.last()));
    }
}

/// Reading the line of arguments gives the arguments back, whatever they hold.
pub proof fn line_preserves_arguments(arguments: Seq<Seq<u16>>)
    ensures
        arguments_of(line_of(arguments)) == arguments,
{
    if arguments.len() > 0 {
        read_line(arguments);
        assert(arguments.drop_last().push(arguments.last()) =~= arguments);
    } else {
        assert(read(unread(), line_of(arguments)) == unread());
    }
}

/// Appends a unit several times.
fn push_repeated(line: &mut Vec<u16>, unit: u16, count: usize)
    ensures
        final(line)@ == old(line)@ + repeated(unit, count as nat),
{
    let ghost before = line@;
    assert(before + repeated(unit, 0) =~= before);
    for index in 0..count
        invariant
            line@ == before + repeated(unit, index as nat),
    {
        line.push(unit);
        assert(line@ =~= before + repeated(unit, (index + 1) as nat));
    }
}

/// Appends an argument as it stands in a command line. No allocation of two-byte units
/// is longer than the bound.
pub fn append_quoted_argument(command: &mut Vec<u16>, argument: &[u16])
    requires
        argument@.len() <= usize::MAX / 4,
    ensures
        final(command)@ == old(command)@ + quoted(argument@),
{
    let ghost before = command@;
    let mut special = argument.len() == 0;
    for index in 0..argument.len()
        invariant
            special == (argument@.len() == 0 || exists|i: int|
                0 <= i < index && is_special(#[trigger] argument@[i])),
    {
        let unit: u16 = argument[index];
        if unit == TAB || unit == BLANK || unit == QUOTE {
            assert(is_special(argument@[index as int]));
            special = true;
        }
    }
    if !special {
        command.extend_from_slice(argument);
        assert(command@ =~= before + argument@);
        return;
    }
    command.push(QUOTE);
    let mut backslashes: usize = 0;
    assert(body(argument@.take(0)) == (Seq::<u16>::empty(), 0nat));
    assert(command@ =~= before + seq![QUOTE] + Seq::<u16>::empty());
    for index in 0..argument.len()
        invariant
            argument@.len() <= usize::MAX / 4,
            backslashes <= index,
            backslashes == body(argument@.take(index as int)).1,
            command@ == before + seq![QUOTE] + body(argument@.take(index as int)).0,
    {
        let unit: u16 = argument[index];
        let ghost written = body(argument@.take(index as int)).0;
        proof {
            let taken = argument@.take(index + 1);
            assert(taken.drop_last() =~= argument@.take(index as int));
            assert(taken.last() == unit);
        }
        if unit == BACKSLASH {
            backslashes = backslashes + 1;
        } else {
            let ghost pending = backslashes as nat;
            if unit == QUOTE {
                push_repeated(command, BACKSLASH, backslashes * 2 + 1);
                command.push(unit);
                assert(command@ =~= before + seq![QUOTE] + (written + repeated(
                    BACKSLASH,
                    2 * pending + 1,
                ).push(QUOTE)));
            } else {
                push_repeated(command, BACKSLASH, backslashes);
                command.push(unit);
                assert(command@ =~= before + seq![QUOTE] + (written + repeated(
                    BACKSLASH,
                    pending,
                ).push(unit)));
            }
            backslashes = 0;
        }
    }
    assert(argument@.take(argument@.len() as int) =~= argument@);
    push_repeated(command, BACKSLASH, backslashes * 2);
    command.push(QUOTE);
    assert(command@ =~= before + quoted(argument@));
}

/// A line of arguments has something for each of them.
proof fn line_is_not_empty(arguments: Seq<Seq<u16>>)
    requires
        arguments.len() > 0,
    ensures
        line_of(arguments).len() > 0,
{
    let last = arguments.last();
    assert(quoted(last).len() > 0);
}

/// The views of strings.
pub open spec fn views(strings: Seq<Vec<u16>>) -> Seq<Seq<u16>> {
    strings.map_values(|text: Vec<u16>| text@)
}

/// Whether a string holds a zero.
pub open spec fn some_nul(strings: Seq<Vec<u16>>) -> bool {
    exists|i: int| 0 <= i < strings.len() && spawn::has_unit((#[trigger] strings[i])@, 0)
}

/// The command line of arguments, the executable first, with the zero at its end.
pub fn build_command_line_wide(arguments: &Vec<Vec<u16>>) -> (result: Result<Vec<u16>, IoError>)
    requires
        forall|i: int|
            0 <= i < arguments@.len() ==> (#[trigger] arguments@[i])@.len() <= usize::MAX / 4,
    ensures
        match result {
            Ok(line) => !some_nul(arguments@) && line@ == line_of(views(arguments@)).push(0),
            Err(error) => some_nul(arguments@) && error.is_simple(
                ErrorKind::InvalidInput,
                "argument contains NUL"@,
            ),
        },
{
    let mut command: Vec<u16> = Vec::new();
    assert(views(arguments@).take(0) =~= Seq::<Seq<u16>>::empty());
    assert(command@ =~= line_of(views(arguments@).take(0)));
    for index in 0..arguments.len()
        invariant
            forall|i: int|
                0 <= i < arguments@.len() ==> (#[trigger] arguments@[i])@.len() <= usize::MAX / 4,
            forall|i: int|
                0 <= i < index ==> !spawn::has_unit((#[trigger] arguments@[i])@, 0),
            command@ == line_of(views(arguments@).take(index as int)),
    {
        if spawn::contains_unit(&arguments[index], 0) {
            assert(spawn::has_unit(arguments@[index as int]@, 0));
            return Err(IoError::new(ErrorKind::InvalidInput, "argument contains NUL"));
        }
        let ghost earlier = views(arguments@).take(index as int);
        proof {
            let taken = views(arguments@).take(index + 1);
            assert(taken.drop_last() =~= earlier);
            assert(taken.last() == arguments@[index as int]@);
            if index > 0 {
                line_is_not_empty(earlier);
            }
        }
        if command.len() != 0 {
            command.push(BLANK);
        }
        append_quoted_argument(&mut command, arguments[index].as_slice());
        proof {
            let taken = views(arguments@).take(index + 1);
            if index == 0 {
                assert(command@ =~= quoted(taken[0]));
            } else {
                assert(command@ =~= line_of(taken));
            }
        }
    }
    assert(views(arguments@).take(arguments@.len() as int) =~= views(arguments@));
    command.push(0);
    Ok(command)
}

} // verus!

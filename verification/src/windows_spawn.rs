//! What a Windows process is created with.
use crate::command_line;
use crate::fault::{ErrorKind, IoError};
use crate::spawn::{self, BrokerSpawn};
use crate::text;
use vstd::prelude::*;

verus! {

/// The first build whose pseudo console closes without blocking.
pub const MINIMUM_WINDOWS_BUILD: u32 = 26_100;

pub const EQUALS: u16 = 61;

/// Whether a unit separates the parts of a path.
pub open spec fn is_path_unit(unit: u16) -> bool {
    unit == 92 || unit == 47 || unit == 58
}

/// Whether an executable is looked up along the search path: its name holds no
/// separator.
pub fn uses_search_path(executable: &[u16]) -> (search: bool)
    ensures
        search == !exists|i: int|
            0 <= i < executable@.len() && is_path_unit(#[trigger] executable@[i]),
{
    for index in 0..executable.len()
        invariant
            forall|i: int| 0 <= i < index ==> !is_path_unit(#[trigger] executable@[i]),
    {
        let unit: u16 = executable[index];
        if unit == 92 || unit == 47 || unit == 58 {
            assert(is_path_unit(executable@[index as int]));
            return false;
        }
    }
    true
}

/// The size of a console, in cells.
#[derive(Clone, Copy, Debug, PartialEq, Eq, Structural)]
pub struct Coord {
    pub x: i16,
    pub y: i16,
}

/// The console size of rows and columns.
pub fn conpty_size(rows: u32, columns: u32) -> (result: Result<Coord, IoError>)
    ensures
        match result {
            Ok(size) => 1 <= rows <= i16::MAX && 1 <= columns <= i16::MAX && size.y == rows
                && size.x == columns,
            Err(error) => if !(1 <= rows <= i16::MAX) {
                error.is_simple(ErrorKind::InvalidInput, "rows exceed ConPTY bounds"@)
            } else {
                !(1 <= columns <= i16::MAX) && error.is_simple(
                    ErrorKind::InvalidInput,
                    "columns exceed ConPTY bounds"@,
                )
            },
        },
{
    if rows == 0 || rows > i16::MAX as u32 {
        return Err(IoError::new(ErrorKind::InvalidInput, "rows exceed ConPTY bounds"));
    }
    if columns == 0 || columns > i16::MAX as u32 {
        return Err(IoError::new(ErrorKind::InvalidInput, "columns exceed ConPTY bounds"));
    }
    Ok(Coord { x: columns as i16, y: rows as i16 })
}

/// A string with a zero at its end.
pub fn nul_terminated_wide(value: &Vec<u16>, label: &str) -> (result: Result<Vec<u16>, IoError>)
    ensures
        match result {
            Ok(terminated) => !spawn::has_unit(value@, 0) && terminated@ == value@.push(0),
            Err(error) => spawn::has_unit(value@, 0) && error.is_simple(
                ErrorKind::InvalidInput,
                label@ + " contains NUL"@,
            ),
        },
{
    if spawn::contains_unit(value, 0) {
        let mut message = String::new();
        message.append(label);
        message.append(" contains NUL");
        assert(message@ =~= label@ + " contains NUL"@);
        return Err(IoError { kind: ErrorKind::InvalidInput, code: None, message });
    }
    let mut terminated: Vec<u16> = Vec::new();
    terminated.extend_from_slice(value.as_slice());
    terminated.push(0);
    assert(terminated@ =~= value@.push(0));
    Ok(terminated)
}

/// The text of a build that is too old.
pub open spec fn old_build_text(build: u32) -> Seq<char> {
    "Windows build "@ + text::decimal_of(build as int)
        + " is unsupported; build 26100 or newer is required"@
}

/// Checks the version of Windows that a query reported, with its status.
pub fn validate_windows_build(status: i32, major: u32, build: u32) -> (result: Result<(), IoError>)
    ensures
        match result {
            Ok(()) => status >= 0 && major >= 10 && build >= MINIMUM_WINDOWS_BUILD,
            Err(error) => if status < 0 {
                error.is_simple(
                    ErrorKind::Other,
                    "RtlGetVersion failed with NTSTATUS "@ + ("0x"@ + text::digits_of(
                        crate::wire::i32_bits(status) as nat,
                        16,
                    )),
                )
            } else {
                &&& major < 10 || build < MINIMUM_WINDOWS_BUILD
                &&& error.is_simple(ErrorKind::Unsupported, old_build_text(build))
            },
        },
{
    if status < 0 {
        let mut message = String::new();
        message.append("RtlGetVersion failed with NTSTATUS ");
        message.append(text::hexadecimal(status).as_str());
        assert(message@ =~= "RtlGetVersion failed with NTSTATUS "@ + ("0x"@ + text::digits_of(
            crate::wire::i32_bits(status) as nat,
            16,
        )));
        return Err(IoError { kind: ErrorKind::Other, code: None, message });
    }
    if major < 10 || build < MINIMUM_WINDOWS_BUILD {
        let mut message = String::new();
        message.append("Windows build ");
        message.append(text::decimal(build as i64).as_str());
        message.append(" is unsupported; build 26100 or newer is required");
        assert(message@ =~= old_build_text(build));
        return Err(IoError { kind: ErrorKind::Unsupported, code: None, message });
    }
    Ok(())
}

/// The name of a pipe made of sixteen random bytes.
pub open spec fn pipe_name_of(random: Seq<u8>) -> Seq<char>
    decreases random.len(),
{
    if random.len() == 0 {
        "\\\\.\\pipe\\ptyx-"@
    } else {
        pipe_name_of(random.drop_last()).push(text::digit_of((random.last() / 16) as nat)).push(
            text::digit_of((random.last() % 16) as nat),
        )
    }
}

/// The name of a pipe made of sixteen random bytes.
pub fn pipe_name(random: &[u8; 16]) -> (name: String)
    ensures
        name@ == pipe_name_of(random@),
{
    let mut name = String::new();
    name.append("\\\\.\\pipe\\ptyx-");
    assert(name@ =~= pipe_name_of(random@.take(0)));
    for index in 0..16usize
        invariant
            random@.len() == 16,
            name@ == pipe_name_of(random@.take(index as int)),
    {
        let byte: u8 = random[index];
        let ghost earlier = name@;
        name.append(text::digits((byte / 16) as u64, 16).as_str());
        name.append(text::digits((byte % 16) as u64, 16).as_str());
        proof {
            let taken = random@.take(index + 1);
            assert(taken.drop_last() =~= random@.take(index as int));
            assert(name@ =~= earlier.push(text::digit_of((byte / 16) as nat)).push(
                text::digit_of((byte % 16) as nat),
            ));
        }
    }
    assert(random@.take(16) =~= random@);
    name
}

/// An environment entry with the place of its key in the platform's order. Two keys with
/// one rank are the same to the platform.
#[derive(Clone, Debug)]
pub struct RankedEntry {
    pub rank: u32,
    pub key: Vec<u16>,
    pub value: Vec<u16>,
}

impl RankedEntry {
    /// Whether the entry can stand in an environment.
    pub open spec fn ok(&self) -> bool {
        &&& self.key@.len() > 0
        &&& !spawn::has_unit(self.key@, 61)
        &&& !spawn::has_unit(self.key@, 0)
        &&& !spawn::has_unit(self.value@, 0)
    }

    /// The entry as it stands in a block.
    pub open spec fn line(&self) -> Seq<u16> {
        (self.key@.push(EQUALS) + self.value@).push(0)
    }
}

/// Whether places are the entries of an environment in order: the last entry of each
/// rank, by rank.
pub open spec fn is_order(entries: Seq<RankedEntry>, places: Seq<int>) -> bool {
    &&& forall|k: int|
        0 <= k < places.len() ==> 0 <= #[trigger] places[k] < entries.len() && is_last(
            entries,
            places[k],
        )
    &&& forall|k: int, l: int|
        0 <= k < l < places.len() ==> entries[#[trigger] places[k]].rank
            < entries[#[trigger] places[l]].rank
    &&& forall|i: int|
        0 <= i < entries.len() && #[trigger] is_last(entries, i) ==> places.contains(i)
}

/// Whether no later entry has the rank of this one.
pub open spec fn is_last(entries: Seq<RankedEntry>, place: int) -> bool {
    forall|j: int|
        place < j < entries.len() ==> (#[trigger] entries[j]).rank != entries[place].rank
}

/// The block of some entries, before the zero at its end.
pub open spec fn lines_of(entries: Seq<RankedEntry>) -> Seq<u16>
    decreases entries.len(),
{
    if entries.len() == 0 {
        Seq::empty()
    } else {
        lines_of(entries.drop_last()) + entries.last().line()
    }
}

/// The entries at some places.
pub open spec fn picked(entries: Seq<RankedEntry>, places: Seq<int>) -> Seq<RankedEntry> {
    Seq::new(places.len(), |k: int| entries[places[k]])
}

/// The block of entries, ended by a zero; an empty one has two.
pub open spec fn block_of(entries: Seq<RankedEntry>) -> Seq<u16> {
    if entries.len() == 0 {
        seq![0, 0]
    } else {
        lines_of(entries).push(0)
    }
}

/// Whether an entry can stand in an environment.
fn is_usable(entry: &RankedEntry) -> (usable: bool)
    ensures
        usable == entry.ok(),
{
    entry.key.len() != 0 && !spawn::contains_unit(&entry.key, 61) && !spawn::contains_unit(
        &entry.key,
        0,
    ) && !spawn::contains_unit(&entry.value, 0)
}

/// Puts an entry where its rank belongs, in place of an earlier one of that rank.
fn place_entry(
    sorted: &mut Vec<RankedEntry>,
    entry: RankedEntry,
    Ghost(entries): Ghost<Seq<RankedEntry>>,
    Ghost(places): Ghost<Seq<int>>,
) -> (after: Ghost<Seq<int>>)
    requires
        is_order(entries, places),
        old(sorted)@ == picked(entries, places),
    ensures
        is_order(entries.push(entry), after@),
        final(sorted)@ == picked(entries.push(entry), after@),
{
    let ghost whole = entries.push(entry);
    let ghost last = entries.len() as int;
    let count: usize = sorted.len();
    let mut place: usize = 0;
    while place < count && sorted[place].rank < entry.rank
        invariant
            count == sorted@.len(),
            place <= count,
            sorted@ == picked(entries, places),
            forall|k: int| 0 <= k < place ==> (#[trigger] sorted@[k]).rank < entry.rank,
        decreases count - place,
    {
        place = place + 1;
    }
    let ghost at = place as int;
    proof {
        assert forall|k: int| 0 <= k < places.len() implies entries[#[trigger] places[k]]
            == sorted@[k] by {}
        assert forall|i: int| 0 <= i < entries.len() implies whole[i] == entries[i] by {}
        assert forall|i: int|
            0 <= i < entries.len() && entries[i].rank != entry.rank implies #[trigger] is_last(
            whole,
            i,
        ) == is_last(entries, i) by {
            if is_last(entries, i) {
                assert forall|j: int| i < j < whole.len() implies (#[trigger] whole[j]).rank
                    != whole[i].rank by {
                    if j < last {
                        assert(entries[j].rank != entries[i].rank);
                    }
                }
            }
            if is_last(whole, i) {
                assert forall|j: int| i < j < entries.len() implies (#[trigger] entries[j]).rank
                    != entries[i].rank by {
                    assert(whole[j].rank != whole[i].rank);
                }
            }
        }
        assert(is_last(whole, last));
    }
    if place < count && sorted[place].rank == entry.rank {
        let ghost updated = places.update(at, last);
        sorted.set(place, entry);
        proof {
            assert(sorted@ =~= picked(whole, updated));
            assert forall|k: int| 0 <= k < updated.len() implies 0 <= #[trigger] updated[k]
                < whole.len() && is_last(whole, updated[k]) by {
                if k != at {
                    assert(is_last(entries, places[k]));
                    if k < at {
                        assert(entries[places[k]].rank < entries[places[at]].rank);
                    } else {
                        assert(entries[places[at]].rank < entries[places[k]].rank);
                    }
                    assert(is_last(whole, places[k]));
                }
            }
            assert forall|k: int, l: int| 0 <= k < l < updated.len() implies whole[
                #[trigger] updated[k]].rank < whole[#[trigger] updated[l]].rank by {
                assert(entries[places[k]].rank < entries[places[l]].rank);
            }
            assert forall|i: int| 0 <= i < whole.len() && #[trigger] is_last(
                whole,
                i,
            ) implies updated.contains(i) by {
                if i == last {
                    assert(updated[at] == last);
                } else {
                    assert(whole[last].rank != whole[i].rank);
                    assert(is_last(entries, i));
                    let k = choose|k: int| 0 <= k < places.len() && places[k] == i;
                    assert(updated[k] == i);
                }
            }
        }
        return Ghost(updated);
    }
    let ghost inserted = places.insert(at, last);
    sorted.insert(place, entry);
    proof {
        assert(sorted@ =~= picked(whole, inserted));
        assert forall|k: int| 0 <= k < places.len() implies entries[#[trigger] places[k]].rank
            != entry.rank by {
            if k >= at {
                assert(entries[places[at]].rank > entry.rank);
                if k > at {
                    assert(entries[places[at]].rank < entries[places[k]].rank);
                }
            }
        }
        assert forall|k: int| 0 <= k < inserted.len() implies 0 <= #[trigger] inserted[k]
            < whole.len() && is_last(whole, inserted[k]) by {
            if k < at {
                assert(inserted[k] == places[k]);
                assert(is_last(whole, places[k]));
            } else if k > at {
                assert(inserted[k] == places[k - 1]);
                assert(is_last(whole, places[k - 1]));
            }
        }
        assert forall|k: int, l: int| 0 <= k < l < inserted.len() implies whole[
            #[trigger] inserted[k]].rank < whole[#[trigger] inserted[l]].rank by {
            let first = if k < at {
                k
            } else {
                k - 1
            };
            let second = if l < at {
                l
            } else {
                l - 1
            };
            if k != at && l != at {
                assert(entries[places[first]].rank < entries[places[second]].rank);
            } else if k == at {
                assert(entries[places[second]].rank != entry.rank);
                assert(entries[places[at]].rank >= entry.rank);
                if second > at {
                    assert(entries[places[at]].rank < entries[places[second]].rank);
                }
            } else {
                assert(sorted@[first].rank < entry.rank);
            }
        }
        assert forall|i: int| 0 <= i < whole.len() && #[trigger] is_last(
            whole,
            i,
        ) implies inserted.contains(i) by {
            if i == last {
                assert(inserted[at] == last);
            } else {
                assert(whole[last].rank != whole[i].rank);
                assert(is_last(entries, i));
                let k = choose|k: int| 0 <= k < places.len() && places[k] == i;
                if k < at {
                    assert(inserted[k] == i);
                } else {
                    assert(inserted[k + 1] == i);
                }
            }
        }
    }
    Ghost(inserted)
}

/// Whether an entry cannot stand in an environment.
pub open spec fn some_unusable(entries: Seq<RankedEntry>) -> bool {
    exists|i: int| 0 <= i < entries.len() && !(#[trigger] entries[i]).ok()
}

/// Whether some entry has a rank.
pub open spec fn has_rank(entries: Seq<RankedEntry>, rank: u32) -> bool {
    exists|i: int| 0 <= i < entries.len() && (#[trigger] entries[i]).rank == rank
}

/// The entries that an environment is made of: those given, and the system's root where
/// none of them is its.
pub open spec fn with_root(entries: Seq<RankedEntry>, root: RankedEntry) -> Seq<RankedEntry> {
    if has_rank(entries, root.rank) {
        entries
    } else {
        entries.push(root)
    }
}

/// Whether a block is that of an environment: the last entry of each key, in order, with
/// the system's root among them.
pub open spec fn is_environment(
    entries: Seq<RankedEntry>,
    system_root: Option<RankedEntry>,
    root_rank: u32,
    block: Seq<u16>,
) -> bool {
    let whole = match system_root {
        Some(root) => with_root(entries, root),
        None => entries,
    };
    has_rank(whole, root_rank) && is_block(whole, block)
}

/// Whether a block is that of the last entry of each key, in order.
pub open spec fn is_block(entries: Seq<RankedEntry>, block: Seq<u16>) -> bool {
    exists|places: Seq<int>| #[trigger]
        is_order(entries, places) && block == block_of(picked(entries, places))
}

/// The block of an environment: the last entry of each key, in the platform's order. The
/// system's root is added where it is missing; without one there is no environment.
pub fn build_environment_wide(
    environment: Vec<RankedEntry>,
    root_rank: u32,
    system_root: Option<RankedEntry>,
) -> (result: Result<Vec<u16>, IoError>)
    requires
        system_root matches Some(root) ==> root.rank == root_rank,
    ensures
        match result {
            Ok(block) => !some_unusable(environment@) && is_environment(
                environment@,
                system_root,
                root_rank,
                block@,
            ),
            Err(error) => if some_unusable(environment@) {
                error.is_simple(ErrorKind::InvalidInput, "invalid environment entry"@)
            } else {
                &&& system_root is None
                &&& !has_rank(environment@, root_rank)
                &&& error.is_simple(ErrorKind::NotFound, "SystemRoot is required"@)
            },
        },
{
    let ghost given = environment@;
    let mut sorted: Vec<RankedEntry> = Vec::new();
    let mut places: Ghost<Seq<int>> = Ghost(Seq::empty());
    let mut has_root = false;
    let mut remaining = environment;
    let count: usize = remaining.len();
    proof {
        assert(given.take(0) =~= Seq::<RankedEntry>::empty());
        assert(sorted@ =~= picked(given.take(0), places@));
    }
    let mut index: usize = 0;
    while index < count
        invariant
            index <= count,
            count == given.len(),
            given == environment@,
            remaining@ =~= given.skip(index as int),
            is_order(given.take(index as int), places@),
            sorted@ == picked(given.take(index as int), places@),
            forall|i: int| 0 <= i < index ==> (#[trigger] given[i]).ok(),
            has_root == exists|i: int|
                0 <= i < index && (#[trigger] given[i]).rank == root_rank,
        decreases count - index,
    {
        let entry: RankedEntry = remaining.remove(0);
        assert(entry == given[index as int]);
        if !is_usable(&entry) {
            assert(!given[index as int].ok());
            return Err(IoError::new(ErrorKind::InvalidInput, "invalid environment entry"));
        }
        if entry.rank == root_rank {
            has_root = true;
        }
        places = place_entry(&mut sorted, entry, Ghost(given.take(index as int)), places);
        assert(given.take(index as int).push(given[index as int]) =~= given.take(index + 1));
        index = index + 1;
    }
    assert(given.take(count as int) =~= given);
    let ghost mut whole = given;
    if !has_root {
        let root: RankedEntry = match system_root {
            Some(root) => root,
            None => {
                assert(!has_rank(given, root_rank));
                return Err(IoError::new(ErrorKind::NotFound, "SystemRoot is required"));
            },
        };
        places = place_entry(&mut sorted, root, Ghost(given), places);
        proof {
            whole = given.push(root);
            assert(!has_rank(given, root_rank));
            assert(whole[given.len() as int].rank == root_rank);
        }
    } else {
        assert(has_rank(given, root_rank));
    }
    let mut block: Vec<u16> = Vec::new();
    assert(sorted@.take(0) =~= Seq::<RankedEntry>::empty());
    for place in 0..sorted.len()
        invariant
            block@ == lines_of(sorted@.take(place as int)),
            place > 0 ==> block@.len() > 0,
    {
        let ghost earlier = block@;
        block.extend_from_slice(sorted[place].key.as_slice());
        block.push(EQUALS);
        block.extend_from_slice(sorted[place].value.as_slice());
        block.push(0);
        proof {
            let taken = sorted@.take(place + 1);
            assert(taken.drop_last() =~= sorted@.take(place as int));
            assert(block@ =~= earlier + sorted@[place as int].line());
        }
    }
    assert(sorted@.take(sorted@.len() as int) =~= sorted@);
    block.push(0);
    if block.len() == 1 {
        block.push(0);
    }
    assert(block@ =~= block_of(sorted@));
    assert(is_order(whole, places@));
    assert(block@ == block_of(picked(whole, places@)));
    assert(is_block(whole, block@));
    Ok(block)
}

/// The block of entries is determined: two orders of one environment are the same.
pub proof fn order_is_unique(entries: Seq<RankedEntry>, first: Seq<int>, second: Seq<int>)
    requires
        is_order(entries, first),
        is_order(entries, second),
    ensures
        first == second,
{
    order_agrees(entries, first, second, 0);
    assert(first =~= second);
}

/// Two orders agree from a place on, where they agree before it.
proof fn order_agrees(entries: Seq<RankedEntry>, first: Seq<int>, second: Seq<int>, from: int)
    requires
        is_order(entries, first),
        is_order(entries, second),
        0 <= from <= first.len(),
        from <= second.len(),
        forall|k: int| 0 <= k < from ==> first[k] == second[k],
    ensures
        first.len() == second.len(),
        forall|k: int| 0 <= k < first.len() ==> first[k] == second[k],
    decreases first.len() - from,
{
    if from < first.len() {
        let k = order_finds(entries, first, second, from);
        assert(from <= k);
        let l = order_finds(entries, second, first, from);
        if k > from {
            assert(entries[second[from]].rank < entries[second[k]].rank);
            if l > from {
                assert(entries[first[from]].rank < entries[first[l]].rank);
            }
        }
        assert(first[from] == second[from]);
        order_agrees(entries, first, second, from + 1);
    } else if from < second.len() {
        let l = order_finds(entries, second, first, from);
        assert(first[l] == second[l]);
        assert(entries[second[l]].rank < entries[second[from]].rank);
    }
}

/// What stands in one order stands in the other, and not before the place where they may
/// differ.
proof fn order_finds(
    entries: Seq<RankedEntry>,
    first: Seq<int>,
    second: Seq<int>,
    from: int,
) -> (place: int)
    requires
        is_order(entries, first),
        is_order(entries, second),
        0 <= from < first.len(),
        forall|k: int| 0 <= k < from && k < second.len() ==> first[k] == second[k],
    ensures
        0 <= place < second.len(),
        second[place] == first[from],
        from <= place || place >= second.len(),
{
    assert(is_last(entries, first[from]));
    assert(second.contains(first[from]));
    let place = choose|k: int| 0 <= k < second.len() && second[k] == first[from];
    if place < from {
        assert(first[place] == second[place]);
        assert(entries[first[place]].rank < entries[first[from]].rank);
    }
    place
}

/// What a Windows process is created with, beside its environment: the size of its console,
/// the application where the executable is not looked up, the command line and the working
/// directory.
#[derive(Debug)]
pub struct ProcessImage {
    pub size: Coord,
    pub application: Option<Vec<u16>>,
    pub command_line: Vec<u16>,
    pub cwd: Option<Vec<u16>>,
}

/// The executable before the arguments.
fn all_arguments(config: &BrokerSpawn<u16>) -> (arguments: Vec<Vec<u16>>)
    ensures
        command_line::views(arguments@) == seq![config.executable@] + command_line::views(
            config.arguments@,
        ),
{
    let mut arguments: Vec<Vec<u16>> = Vec::new();
    let mut executable: Vec<u16> = Vec::new();
    executable.extend_from_slice(config.executable.as_slice());
    assert(executable@ =~= config.executable@);
    arguments.push(executable);
    for index in 0..config.arguments.len()
        invariant
            arguments@.len() == index + 1,
            arguments@[0]@ == config.executable@,
            forall|i: int| 0 <= i < index ==> (#[trigger] arguments@[i + 1])@ == config.arguments@[i]@,
    {
        let mut argument: Vec<u16> = Vec::new();
        argument.extend_from_slice(config.arguments[index].as_slice());
        assert(argument@ =~= config.arguments@[index as int]@);
        arguments.push(argument);
    }
    proof {
        let expected = seq![config.executable@] + command_line::views(config.arguments@);
        assert forall|i: int| 0 <= i < expected.len() implies #[trigger] command_line::views(
            arguments@,
        )[i] == expected[i] by {
            if i > 0 {
                assert(arguments@[i - 1 + 1]@ == config.arguments@[i - 1]@);
            }
        }
        assert(command_line::views(arguments@) =~= expected);
    }
    arguments
}

/// Each string is no larger than all of them.
proof fn size_bounds_each(strings: Seq<Vec<u16>>, place: int)
    requires
        0 <= place < strings.len(),
    ensures
        strings[place]@.len() * 2 <= spawn::list_size(strings),
    decreases strings.len(),
{
    if place < strings.len() - 1 {
        assert(strings.drop_last()[place] == strings[place]);
        size_bounds_each(strings.drop_last(), place);
    }
}

/// What a configuration is created as. Only a configuration that is rejected fails.
pub fn process_image(config: &BrokerSpawn<u16>) -> (result: Result<ProcessImage, IoError>)
    ensures
        match result {
            Ok(image) => {
                &&& config.rejection() is None
                &&& image.size.y == config.rows
                &&& image.size.x == config.columns
                &&& match image.application {
                    Some(application) => application@ == config.executable@.push(0) && exists|i: int|
                        0 <= i < config.executable@.len() && is_path_unit(
                            #[trigger] config.executable@[i],
                        ),
                    None => !exists|i: int|
                        0 <= i < config.executable@.len() && is_path_unit(
                            #[trigger] config.executable@[i],
                        ),
                }
                &&& image.command_line@ == command_line::line_of(
                    seq![config.executable@] + command_line::views(config.arguments@),
                ).push(0)
                &&& match (image.cwd, config.cwd) {
                    (Some(cwd), Some(path)) => cwd@ == path@.push(0),
                    (None, None) => true,
                    _ => false,
                }
            },
            Err(error) => config.rejection() matches Some(text) && error.is_simple(
                ErrorKind::InvalidInput,
                text,
            ),
        },
{
    match config.validate() {
        Ok(()) => {},
        Err(error) => {
            return Err(error);
        },
    }
    let size = match conpty_size(config.rows, config.columns) {
        Ok(size) => size,
        Err(error) => {
            return Err(error);
        },
    };
    let application = match nul_terminated_wide(&config.executable, "executable") {
        Ok(application) => application,
        Err(error) => {
            return Err(error);
        },
    };
    let application: Option<Vec<u16>> = if uses_search_path(config.executable.as_slice()) {
        None
    } else {
        Some(application)
    };
    let arguments = all_arguments(config);
    proof {
        let lines = command_line::views(arguments@);
        let rest = command_line::views(config.arguments@);
        assert(lines.len() == arguments@.len());
        assert(rest.len() == config.arguments@.len());
        assert(lines.len() == 1 + rest.len());
        assert forall|i: int| 0 <= i < arguments@.len() implies (#[trigger] arguments@[i])@.len()
            <= usize::MAX / 4 by {
            assert(arguments@[i]@ == lines[i]);
            if i > 0 {
                assert(lines[i] == rest[i - 1]);
                assert(lines[i] == config.arguments@[i - 1]@);
                size_bounds_each(config.arguments@, i - 1);
            }
        }
        assert forall|i: int| 0 <= i < arguments@.len() implies !spawn::has_unit(
            (#[trigger] arguments@[i])@,
            0,
        ) by {
            assert(arguments@[i]@ == lines[i]);
            if i > 0 {
                assert(lines[i] == rest[i - 1]);
                assert(lines[i] == config.arguments@[i - 1]@);
            }
        }
    }
    let command_line = match command_line::build_command_line_wide(&arguments) {
        Ok(line) => line,
        Err(error) => {
            return Err(error);
        },
    };
    let cwd: Option<Vec<u16>> = match &config.cwd {
        Some(path) => match nul_terminated_wide(path, "working directory") {
            Ok(path) => Some(path),
            Err(error) => {
                return Err(error);
            },
        },
        None => None,
    };
    Ok(ProcessImage { size, application, command_line, cwd })
}

} // verus!

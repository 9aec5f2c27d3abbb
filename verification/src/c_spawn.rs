//! Process configuration as C callers give it.
use crate::c_api::{self, BytesView, Size, MAX_CLOSE_TIMEOUT_US, MAX_SESSION_CAPACITY};
use crate::c_api::{SPAWN_INHERIT_ENVIRONMENT, SPAWN_OPTIONS_SIZE};
use crate::spawn::{BrokerSpawn, MAX_ARGUMENTS, MAX_ENVIRONMENT, MAX_SPAWN_PAYLOAD};
use crate::spawn_payload;
use crate::wide_text;
use vstd::prelude::*;
use vstd::slice::slice_subrange;
use vstd::slice::slice_to_vec;
use vstd::utf8::valid_utf8;

verus! {

/// The options of a spawn.
#[derive(Clone, Debug)]
pub struct SpawnOptions {
    pub struct_size: u32,
    pub flags: u32,
    pub executable: BytesView,
    pub arguments: Option<Vec<BytesView>>,
    pub argument_count: u64,
    pub environment: Option<Vec<BytesView>>,
    pub environment_count: u64,
    pub working_directory: BytesView,
    pub size: Size,
    pub input_capacity: u64,
    pub output_capacity: u64,
    pub graceful_close_timeout_us: u64,
    pub reserved: [u64; 4],
}

/// Whether the storage of views holds as many as it is said to, each readable.
pub open spec fn views_readable(views: Option<Vec<BytesView>>, count: u64) -> bool {
    views matches Some(list) ==> list@.len() >= count && forall|i: int|
        0 <= i < count ==> (#[trigger] list@[i]).readable()
}

/// The texts of views, unless one of them is not acceptable.
pub open spec fn texts_of(views: Option<Vec<BytesView>>, count: u64) -> Option<Seq<Seq<u8>>> {
    if count == 0 {
        Some(Seq::empty())
    } else {
        match views {
            Some(list) => if forall|i: int|
                0 <= i < count ==> (#[trigger] list@[i]).text() is Some {
                Some(Seq::new(count as nat, |i: int| list@[i].text().unwrap()))
            } else {
                None
            },
            None => None,
        }
    }
}

/// How long texts are together.
pub open spec fn total(texts: Seq<Seq<u8>>) -> nat
    decreases texts.len(),
{
    if texts.len() == 0 {
        0
    } else {
        total(texts.drop_last()) + texts.last().len()
    }
}

/// Whether no text holds a zero byte.
pub open spec fn all_clean(texts: Seq<Seq<u8>>) -> bool {
    forall|i: int| 0 <= i < texts.len() ==> !(#[trigger] texts[i]).contains(0)
}

/// Whether an environment entry has a key and a separator.
pub open spec fn is_entry(text: Seq<u8>) -> bool {
    text.contains(61) && text[0] != 61
}

impl SpawnOptions {
    /// Whether every view can be read.
    pub open spec fn readable(&self) -> bool {
        &&& self.executable.readable()
        &&& views_readable(self.arguments, self.argument_count)
        &&& views_readable(self.environment, self.environment_count)
        &&& self.working_directory.readable()
    }

    /// Whether the numbers are within their bounds.
    pub open spec fn numbers_ok(&self) -> bool {
        &&& self.struct_size >= SPAWN_OPTIONS_SIZE
        &&& self.flags <= SPAWN_INHERIT_ENVIRONMENT
        &&& c_api::all_zero(self.reserved)
        &&& self.argument_count <= MAX_ARGUMENTS
        &&& self.environment_count <= MAX_ENVIRONMENT
        &&& self.graceful_close_timeout_us <= MAX_CLOSE_TIMEOUT_US
        &&& self.size.ok()
        &&& 1 <= self.input_capacity <= MAX_SESSION_CAPACITY
        &&& 1 <= self.output_capacity <= MAX_SESSION_CAPACITY
        &&& self.inherits() ==> self.environment_count == 0
    }

    /// Whether the child takes the environment over.
    pub open spec fn inherits(&self) -> bool {
        self.flags == SPAWN_INHERIT_ENVIRONMENT
    }

    /// The arguments.
    pub open spec fn argument_texts(&self) -> Option<Seq<Seq<u8>>> {
        texts_of(self.arguments, self.argument_count)
    }

    /// The environment's entries.
    pub open spec fn environment_texts(&self) -> Option<Seq<Seq<u8>>> {
        if self.inherits() {
            Some(Seq::empty())
        } else {
            texts_of(self.environment, self.environment_count)
        }
    }

    /// Whether every text can be had.
    pub open spec fn texts_ok(&self) -> bool {
        &&& self.executable.text() is Some
        &&& self.argument_texts() is Some
        &&& self.environment_texts() is Some
        &&& self.working_directory.text() is Some
    }

    /// Whether the options are a configuration.
    pub open spec fn accepted(&self) -> bool {
        &&& self.numbers_ok()
        &&& self.texts_ok()
        &&& self.executable.text().unwrap().len() > 0
        &&& !self.executable.text().unwrap().contains(0)
        &&& all_clean(self.argument_texts().unwrap())
        &&& all_clean(self.environment_texts().unwrap())
        &&& !self.working_directory.text().unwrap().contains(0)
        &&& forall|i: int|
            0 <= i < self.environment_texts().unwrap().len() ==> is_entry(
                #[trigger] self.environment_texts().unwrap()[i],
            )
        &&& self.executable.text().unwrap().len() + total(self.argument_texts().unwrap()) + total(
            self.environment_texts().unwrap(),
        ) + self.working_directory.text().unwrap().len() <= MAX_SPAWN_PAYLOAD
    }

    /// Whether a configuration is the one that the options stand for. An environment
    /// entry is split at its first separator.
    pub open spec fn describes(&self, config: &BrokerSpawn<u8>) -> bool {
        &&& config.executable@ == self.executable.text().unwrap()
        &&& config.arguments@.len() == self.argument_count
        &&& forall|i: int|
            0 <= i < self.argument_count ==> (#[trigger] config.arguments@[i])@
                == self.argument_texts().unwrap()[i]
        &&& match config.environment {
            Some(entries) => {
                &&& !self.inherits()
                &&& entries@.len() == self.environment_count
                &&& forall|i: int|
                    0 <= i < self.environment_count ==> is_split(
                        #[trigger] entries@[i],
                        self.environment_texts().unwrap()[i],
                    )
            },
            None => self.inherits(),
        }
        &&& match config.cwd {
            Some(path) => path@ == self.working_directory.text().unwrap() && path@.len() > 0,
            None => self.working_directory.text().unwrap().len() == 0,
        }
        &&& config.rows == self.size.rows
        &&& config.columns == self.size.columns
        &&& config.pixel_width == self.size.pixel_width
        &&& config.pixel_height == self.size.pixel_height
        &&& config.graceful_close_timeout == self.graceful_close_timeout_us * 1000
    }
}

/// Whether every one of some texts is UTF-8.
pub open spec fn all_utf8(texts: Seq<Seq<u8>>) -> bool {
    forall|i: int| 0 <= i < texts.len() ==> valid_utf8(#[trigger] texts[i])
}

/// Whether an entry is a text split at its first separator, in UTF-16.
pub open spec fn is_wide_split(entry: (Vec<u16>, Vec<u16>), text: Seq<u8>) -> bool {
    exists|key: Seq<u8>, value: Seq<u8>|
        #![trigger wide_text::wide(key), wide_text::wide(value)]
        {
            &&& text == key.push(61) + value
            &&& !key.contains(61)
            &&& entry.0@ == wide_text::wide(key)
            &&& entry.1@ == wide_text::wide(value)
        }
}

impl SpawnOptions {
    /// Whether every text is UTF-8.
    pub open spec fn utf8_ok(&self) -> bool {
        &&& valid_utf8(self.executable.text().unwrap())
        &&& all_utf8(self.argument_texts().unwrap())
        &&& all_utf8(self.environment_texts().unwrap())
        &&& valid_utf8(self.working_directory.text().unwrap())
    }

    /// Whether a configuration is the one that the options stand for on Windows: the same as
    /// elsewhere, with every text in UTF-16.
    pub open spec fn describes_wide(&self, config: &BrokerSpawn<u16>) -> bool {
        &&& config.executable@ == wide_text::wide(self.executable.text().unwrap())
        &&& config.arguments@.len() == self.argument_count
        &&& forall|i: int|
            0 <= i < self.argument_count ==> (#[trigger] config.arguments@[i])@ == wide_text::wide(
                self.argument_texts().unwrap()[i],
            )
        &&& match config.environment {
            Some(entries) => {
                &&& !self.inherits()
                &&& entries@.len() == self.environment_count
                &&& forall|i: int|
                    0 <= i < self.environment_count ==> is_wide_split(
                        #[trigger] entries@[i],
                        self.environment_texts().unwrap()[i],
                    )
            },
            None => self.inherits(),
        }
        &&& match config.cwd {
            Some(path) => path@ == wide_text::wide(self.working_directory.text().unwrap())
                && self.working_directory.text().unwrap().len() > 0,
            None => self.working_directory.text().unwrap().len() == 0,
        }
        &&& config.rows == self.size.rows
        &&& config.columns == self.size.columns
        &&& config.pixel_width == self.size.pixel_width
        &&& config.pixel_height == self.size.pixel_height
        &&& config.graceful_close_timeout == self.graceful_close_timeout_us * 1000
    }
}

/// Whether an entry is a text split at its first separator.
pub open spec fn is_split(entry: (Vec<u8>, Vec<u8>), text: Seq<u8>) -> bool {
    &&& text == entry.0@.push(61) + entry.1@
    &&& !entry.0@.contains(61)
}

/// The first texts are no longer together than all of them.
proof fn total_grows(texts: Seq<Seq<u8>>, count: int)
    requires
        0 <= count <= texts.len(),
    ensures
        total(texts.take(count)) <= total(texts),
    decreases texts.len(),
{
    if count == texts.len() {
        assert(texts.take(count) =~= texts);
    } else {
        assert(texts.drop_last().take(count) =~= texts.take(count));
        total_grows(texts.drop_last(), count);
    }
}

/// The bytes of a view, within what remains of the budget and without a zero byte.
pub fn spawn_bytes(view: &BytesView, remaining: &mut usize) -> (result: Result<Vec<u8>, ()>)
    requires
        view.readable(),
    ensures
        match result {
            Ok(bytes) => {
                &&& view.text() == Some(bytes@)
                &&& bytes@.len() <= *old(remaining)
                &&& !bytes@.contains(0)
                &&& *final(remaining) == *old(remaining) - bytes@.len()
            },
            Err(()) => {
                &&& *final(remaining) == *old(remaining)
                &&& view.text() matches Some(text) ==> text.len() > *old(remaining)
                    || text.contains(0)
            },
        },
{
    let bytes = match c_api::borrowed_bytes(view) {
        Ok(bytes) => bytes,
        Err(()) => {
            return Err(());
        },
    };
    if bytes.len() > *remaining || spawn_payload::contains_nul(bytes.as_slice()) {
        return Err(());
    }
    *remaining = *remaining - bytes.len();
    Ok(bytes)
}

/// The texts of views, within what remains of the budget and without a zero byte.
pub fn spawn_byte_strings(
    values: &Option<Vec<BytesView>>,
    count: u64,
    remaining: &mut usize,
) -> (result: Result<Vec<Vec<u8>>, ()>)
    requires
        views_readable(*values, count),
        count <= MAX_ENVIRONMENT,
    ensures
        match result {
            Ok(strings) => {
                &&& texts_of(*values, count) matches Some(texts) && {
                    &&& strings@.len() == texts.len() == count
                    &&& forall|i: int|
                        0 <= i < count ==> (#[trigger] strings@[i])@ == texts[i]
                    &&& all_clean(texts)
                    &&& total(texts) <= *old(remaining)
                    &&& *final(remaining) == *old(remaining) - total(texts)
                }
            },
            Err(()) => texts_of(*values, count) matches Some(texts) ==> !all_clean(texts) || total(
                texts,
            ) > *old(remaining),
        },
{
    let mut strings: Vec<Vec<u8>> = Vec::new();
    if count == 0 {
        return Ok(strings);
    }
    let list = match values {
        Some(list) => list,
        None => {
            return Err(());
        },
    };
    let ghost budget = *remaining;
    let ghost texts = Seq::new(count as nat, |i: int| list@[i].text().unwrap());
    assert(total(texts.take(0)) == 0);
    for index in 0..count as usize
        invariant
            count <= MAX_ENVIRONMENT,
            *values == Some(*list),
            views_readable(*values, count),
            count > 0,
            texts == Seq::new(count as nat, |i: int| list@[i].text().unwrap()),
            strings@.len() == index,
            forall|i: int| 0 <= i < index ==> (#[trigger] list@[i]).text() is Some,
            forall|i: int| 0 <= i < index ==> (#[trigger] strings@[i])@ == texts[i],
            forall|i: int| 0 <= i < index ==> !(#[trigger] texts[i]).contains(0),
            *remaining + total(texts.take(index as int)) == budget,
            budget == *old(remaining),
    {
        let ghost taken = texts.take(index + 1);
        proof {
            assert(taken.drop_last() =~= texts.take(index as int));
            assert(taken.last() == texts[index as int]);
            total_grows(texts, index + 1);
            assert(list@[index as int].readable());
        }
        match spawn_bytes(&list[index], remaining) {
            Ok(bytes) => {
                strings.push(bytes);
            },
            Err(()) => {
                proof {
                    if texts_of(*values, count) is Some {
                        assert(texts_of(*values, count).unwrap() == texts);
                        if texts[index as int].contains(0) {
                            assert(!all_clean(texts));
                        } else {
                            assert(total(texts) > budget);
                        }
                    }
                }
                return Err(());
            },
        }
    }
    proof {
        assert(texts.take(count as int) =~= texts);
        assert(texts_of(*values, count) == Some(texts));
    }
    Ok(strings)
}

/// Where the first separator of a text stands.
fn separator_of(text: &Vec<u8>) -> (place: Option<usize>)
    ensures
        match place {
            Some(place) => {
                &&& place < text@.len()
                &&& text@[place as int] == 61
                &&& forall|i: int| 0 <= i < place ==> text@[i] != 61
            },
            None => !text@.contains(61),
        },
{
    for index in 0..text.len()
        invariant
            forall|i: int| 0 <= i < index ==> text@[i] != 61,
    {
        if text[index] == 61 {
            return Some(index);
        }
    }
    None
}

/// The environment entries that texts stand for.
fn environment_entries(texts: &Vec<Vec<u8>>) -> (result: Result<Vec<(Vec<u8>, Vec<u8>)>, ()>)
    ensures
        match result {
            Ok(entries) => {
                &&& entries@.len() == texts@.len()
                &&& forall|i: int|
                    0 <= i < texts@.len() ==> is_entry((#[trigger] texts@[i])@)
                &&& forall|i: int|
                    0 <= i < texts@.len() ==> is_split(#[trigger] entries@[i], texts@[i]@)
            },
            Err(()) => exists|i: int|
                0 <= i < texts@.len() && !is_entry((#[trigger] texts@[i])@),
        },
{
    let mut entries: Vec<(Vec<u8>, Vec<u8>)> = Vec::new();
    for index in 0..texts.len()
        invariant
            entries@.len() == index,
            forall|i: int| 0 <= i < index ==> is_entry((#[trigger] texts@[i])@),
            forall|i: int| 0 <= i < index ==> is_split(#[trigger] entries@[i], texts@[i]@),
    {
        let text = &texts[index];
        let length: usize = text.len();
        let place: usize = match separator_of(text) {
            Some(place) => place,
            None => {
                assert(!is_entry(texts@[index as int]@));
                return Err(());
            },
        };
        if place == 0 {
            assert(!is_entry(texts@[index as int]@));
            return Err(());
        }
        let key = slice_to_vec(slice_subrange(text.as_slice(), 0, place));
        let value = slice_to_vec(slice_subrange(text.as_slice(), place + 1, length));
        assert(key@.push(61) + value@ =~= text@);
        assert(text@[place as int] == 61);
        entries.push((key, value));
    }
    Ok(entries)
}

/// Whether the numbers of options are within their bounds.
fn numbers_valid(options: &SpawnOptions) -> (valid: bool)
    ensures
        valid == options.numbers_ok(),
{
    options.struct_size >= SPAWN_OPTIONS_SIZE && options.flags <= SPAWN_INHERIT_ENVIRONMENT
        && c_api::is_zero(&options.reserved) && options.argument_count <= MAX_ARGUMENTS as u64
        && options.environment_count <= MAX_ENVIRONMENT as u64 && options.graceful_close_timeout_us
        <= MAX_CLOSE_TIMEOUT_US && options.size.is_valid() && options.input_capacity >= 1
        && options.input_capacity <= MAX_SESSION_CAPACITY && options.output_capacity >= 1
        && options.output_capacity <= MAX_SESSION_CAPACITY && (options.flags
        != SPAWN_INHERIT_ENVIRONMENT || options.environment_count == 0)
}

/// The configuration that options stand for, with the capacities of the input and the
/// output.
pub fn spawn_config(options: &SpawnOptions) -> (result: Result<(BrokerSpawn<u8>, usize, usize), ()>)
    requires
        options.readable(),
    ensures
        match result {
            Ok((config, input_capacity, output_capacity)) => {
                &&& options.accepted()
                &&& options.describes(&config)
                &&& input_capacity == options.input_capacity
                &&& output_capacity == options.output_capacity
            },
            Err(()) => !options.accepted(),
        },
{
    if !numbers_valid(options) {
        return Err(());
    }
    let mut remaining: usize = MAX_SPAWN_PAYLOAD;
    let executable = match spawn_bytes(&options.executable, &mut remaining) {
        Ok(executable) => executable,
        Err(()) => {
            return Err(());
        },
    };
    if executable.len() == 0 {
        return Err(());
    }
    let arguments = match spawn_byte_strings(
        &options.arguments,
        options.argument_count,
        &mut remaining,
    ) {
        Ok(arguments) => arguments,
        Err(()) => {
            return Err(());
        },
    };
    let environment: Option<Vec<(Vec<u8>, Vec<u8>)>> = if options.flags
        == SPAWN_INHERIT_ENVIRONMENT {
        None
    } else {
        let values = match spawn_byte_strings(
            &options.environment,
            options.environment_count,
            &mut remaining,
        ) {
            Ok(values) => values,
            Err(()) => {
                return Err(());
            },
        };
        match environment_entries(&values) {
            Ok(entries) => {
                proof {
                    let texts = options.environment_texts().unwrap();
                    assert forall|i: int| 0 <= i < texts.len() implies is_entry(
                        #[trigger] texts[i],
                    ) by {
                        assert(values@[i]@ == texts[i]);
                    }
                }
                Some(entries)
            },
            Err(()) => {
                proof {
                    let i = choose|i: int|
                        0 <= i < values@.len() && !is_entry((#[trigger] values@[i])@);
                    assert(!is_entry(options.environment_texts().unwrap()[i]));
                }
                return Err(());
            },
        }
    };
    let working_directory = match c_api::borrowed_bytes(&options.working_directory) {
        Ok(path) => path,
        Err(()) => {
            return Err(());
        },
    };
    let cwd: Option<Vec<u8>> = if working_directory.len() == 0 {
        None
    } else {
        if working_directory.len() > remaining || spawn_payload::contains_nul(
            working_directory.as_slice(),
        ) {
            return Err(());
        }
        Some(working_directory)
    };
    let config = BrokerSpawn {
        executable,
        arguments,
        environment,
        cwd,
        rows: options.size.rows,
        columns: options.size.columns,
        pixel_width: options.size.pixel_width,
        pixel_height: options.size.pixel_height,
        graceful_close_timeout: options.graceful_close_timeout_us as u128 * 1000,
    };
    Ok((config, options.input_capacity as usize, options.output_capacity as usize))
}

/// Texts in UTF-16, where all of them are UTF-8.
fn wide_texts(texts: &Vec<Vec<u8>>) -> (result: Result<Vec<Vec<u16>>, ()>)
    ensures
        match result {
            Ok(wide) => {
                &&& wide@.len() == texts@.len()
                &&& forall|i: int|
                    0 <= i < texts@.len() ==> valid_utf8((#[trigger] texts@[i])@)
                &&& forall|i: int|
                    0 <= i < texts@.len() ==> (#[trigger] wide@[i])@ == wide_text::wide(
                        texts@[i]@,
                    )
            },
            Err(()) => exists|i: int|
                0 <= i < texts@.len() && !valid_utf8((#[trigger] texts@[i])@),
        },
{
    let mut wide: Vec<Vec<u16>> = Vec::new();
    for index in 0..texts.len()
        invariant
            wide@.len() == index,
            forall|i: int| 0 <= i < index ==> valid_utf8((#[trigger] texts@[i])@),
            forall|i: int|
                0 <= i < index ==> (#[trigger] wide@[i])@ == wide_text::wide(texts@[i]@),
    {
        match wide_text::wide_text(&texts[index]) {
            Some(text) => {
                wide.push(text);
            },
            None => {
                assert(!valid_utf8(texts@[index as int]@));
                return Err(());
            },
        }
    }
    Ok(wide)
}

/// Environment entries in UTF-16, where all of them are UTF-8.
fn wide_entries(entries: &Vec<(Vec<u8>, Vec<u8>)>) -> (result: Result<
    Vec<(Vec<u16>, Vec<u16>)>,
    (),
>)
    ensures
        match result {
            Ok(wide) => {
                &&& wide@.len() == entries@.len()
                &&& forall|i: int|
                    0 <= i < entries@.len() ==> valid_utf8((#[trigger] entries@[i]).0@)
                        && valid_utf8(entries@[i].1@)
                &&& forall|i: int|
                    0 <= i < entries@.len() ==> (#[trigger] wide@[i]).0@ == wide_text::wide(
                        entries@[i].0@,
                    ) && wide@[i].1@ == wide_text::wide(entries@[i].1@)
            },
            Err(()) => exists|i: int|
                0 <= i < entries@.len() && !(valid_utf8((#[trigger] entries@[i]).0@) && valid_utf8(
                    entries@[i].1@,
                )),
        },
{
    let mut wide: Vec<(Vec<u16>, Vec<u16>)> = Vec::new();
    for index in 0..entries.len()
        invariant
            wide@.len() == index,
            forall|i: int|
                0 <= i < index ==> valid_utf8((#[trigger] entries@[i]).0@) && valid_utf8(
                    entries@[i].1@,
                ),
            forall|i: int|
                0 <= i < index ==> (#[trigger] wide@[i]).0@ == wide_text::wide(entries@[i].0@)
                    && wide@[i].1@ == wide_text::wide(entries@[i].1@),
    {
        let entry = &entries[index];
        match (wide_text::wide_text(&entry.0), wide_text::wide_text(&entry.1)) {
            (Some(key), Some(value)) => {
                wide.push((key, value));
            },
            _ => {
                assert(!(valid_utf8(entries@[index as int].0@) && valid_utf8(
                    entries@[index as int].1@,
                )));
                return Err(());
            },
        }
    }
    Ok(wide)
}

/// The configuration that options stand for on Windows, where texts are UTF-16, with the
/// capacities of the input and the output. Texts that are not UTF-8 are refused.
pub fn spawn_config_wide(options: &SpawnOptions) -> (result: Result<
    (BrokerSpawn<u16>, usize, usize),
    (),
>)
    requires
        options.readable(),
    ensures
        match result {
            Ok((config, input_capacity, output_capacity)) => {
                &&& options.accepted()
                &&& options.utf8_ok()
                &&& options.describes_wide(&config)
                &&& input_capacity == options.input_capacity
                &&& output_capacity == options.output_capacity
            },
            Err(()) => !(options.accepted() && options.utf8_ok()),
        },
{
    let (narrow, input_capacity, output_capacity) = match spawn_config(options) {
        Ok(taken) => taken,
        Err(()) => {
            return Err(());
        },
    };
    let executable = match wide_text::wide_text(&narrow.executable) {
        Some(executable) => executable,
        None => {
            return Err(());
        },
    };
    let ghost argument_texts = options.argument_texts().unwrap();
    let arguments = match wide_texts(&narrow.arguments) {
        Ok(arguments) => arguments,
        Err(()) => {
            proof {
                let i = choose|i: int|
                    0 <= i < narrow.arguments@.len() && !valid_utf8(
                        (#[trigger] narrow.arguments@[i])@,
                    );
                assert(!valid_utf8(argument_texts[i]));
            }
            return Err(());
        },
    };
    proof {
        assert forall|i: int| 0 <= i < argument_texts.len() implies valid_utf8(
            #[trigger] argument_texts[i],
        ) by {
            assert(valid_utf8(narrow.arguments@[i]@));
        }
    }
    let ghost entry_texts = options.environment_texts().unwrap();
    let environment: Option<Vec<(Vec<u16>, Vec<u16>)>> = match &narrow.environment {
        Some(entries) => match wide_entries(entries) {
            Ok(wide) => {
                proof {
                    assert forall|i: int| 0 <= i < entry_texts.len() implies valid_utf8(
                        #[trigger] entry_texts[i],
                    ) by {
                        assert(is_split(entries@[i], entry_texts[i]));
                        wide_text::separator_parts_text(entries@[i].0@, entries@[i].1@);
                    }
                    assert forall|i: int| 0 <= i < options.environment_count implies is_wide_split(
                        #[trigger] wide@[i],
                        entry_texts[i],
                    ) by {
                        assert(is_split(entries@[i], entry_texts[i]));
                        assert(wide@[i].0@ == wide_text::wide(entries@[i].0@));
                        assert(wide@[i].1@ == wide_text::wide(entries@[i].1@));
                    }
                }
                Some(wide)
            },
            Err(()) => {
                proof {
                    let i = choose|i: int|
                        0 <= i < entries@.len() && !(valid_utf8((#[trigger] entries@[i]).0@)
                            && valid_utf8(entries@[i].1@));
                    assert(is_split(entries@[i], entry_texts[i]));
                    wide_text::separator_parts_text(entries@[i].0@, entries@[i].1@);
                    assert(!valid_utf8(entry_texts[i]));
                }
                return Err(());
            },
        },
        None => None,
    };
    let cwd: Option<Vec<u16>> = match &narrow.cwd {
        Some(path) => match wide_text::wide_text(path) {
            Some(path) => Some(path),
            None => {
                return Err(());
            },
        },
        None => None,
    };
    let config = BrokerSpawn {
        executable,
        arguments,
        environment,
        cwd,
        rows: narrow.rows,
        columns: narrow.columns,
        pixel_width: narrow.pixel_width,
        pixel_height: narrow.pixel_height,
        graceful_close_timeout: narrow.graceful_close_timeout,
    };
    Ok((config, input_capacity, output_capacity))
}

} // verus!

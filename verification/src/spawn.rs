//! Process configuration, its validation and its encoding for the broker.
use crate::fault::{ErrorKind, IoError};
use crate::spawn_payload::{self, SpawnModel, WindowSize};
use crate::wire::{self, ByteOrder};
use vstd::prelude::*;

verus! {

pub const MAX_ARGUMENTS: usize = 256;

pub const MAX_ENVIRONMENT: usize = 4096;

pub const MAX_SPAWN_PAYLOAD: usize = 65536;

pub const MAX_CELL_DIMENSION: u32 = 32767;

pub const MAX_PIXEL_DIMENSION: u32 = 65535;

/// The longest graceful-close timeout, in nanoseconds.
pub const MAX_CLOSE_TIMEOUT: u128 = 60_000_000_000;

/// One unit of a platform string: a byte on Unix, a sixteen-bit unit on Windows.
pub trait NativeUnit: Copy + Sized {
    /// The unit as a number.
    spec fn code(self) -> nat;

    /// How many bytes a unit takes.
    spec fn width() -> nat;

    /// The unit as a number.
    fn unit(&self) -> (code: u16)
        ensures
            code == self.code(),
    ;

    /// How many bytes a unit takes.
    fn unit_width() -> (width: usize)
        ensures
            width == Self::width(),
            1 <= width <= 2,
    ;
}

impl NativeUnit for u8 {
    open spec fn code(self) -> nat {
        self as nat
    }

    open spec fn width() -> nat {
        1
    }

    fn unit(&self) -> (code: u16) {
        *self as u16
    }

    fn unit_width() -> (width: usize) {
        1
    }
}

impl NativeUnit for u16 {
    open spec fn code(self) -> nat {
        self as nat
    }

    open spec fn width() -> nat {
        2
    }

    fn unit(&self) -> (code: u16) {
        *self
    }

    fn unit_width() -> (width: usize) {
        2
    }
}

/// Whether a string holds a unit with this number.
pub open spec fn has_unit<U: NativeUnit>(text: Seq<U>, code: nat) -> bool {
    exists|i: int| 0 <= i < text.len() && (#[trigger] text[i]).code() == code
}

/// The size of a string in bytes.
pub open spec fn native_size<U: NativeUnit>(text: Seq<U>) -> nat {
    text.len() * U::width()
}

/// Fully owned process configuration.
#[derive(Clone, Debug)]
pub struct BrokerSpawn<U> {
    pub executable: Vec<U>,
    pub arguments: Vec<Vec<U>>,
    pub environment: Option<Vec<(Vec<U>, Vec<U>)>>,
    pub cwd: Option<Vec<U>>,
    pub rows: u32,
    pub columns: u32,
    pub pixel_width: u32,
    pub pixel_height: u32,
    /// In nanoseconds.
    pub graceful_close_timeout: u128,
}

/// The size of strings in bytes.
pub open spec fn list_size<U: NativeUnit>(strings: Seq<Vec<U>>) -> nat
    decreases strings.len(),
{
    if strings.len() == 0 {
        0
    } else {
        list_size(strings.drop_last()) + native_size(strings.last()@)
    }
}

/// The size of environment entries in bytes, each with its separator.
pub open spec fn entries_size<U: NativeUnit>(entries: Seq<(Vec<U>, Vec<U>)>) -> nat
    decreases entries.len(),
{
    if entries.len() == 0 {
        0
    } else {
        entries_size(entries.drop_last()) + native_size(entries.last().0@) + native_size(
            entries.last().1@,
        ) + 1
    }
}

impl<U: NativeUnit> BrokerSpawn<U> {
    /// The environment's entries, none when it is inherited.
    pub open spec fn entries(&self) -> Seq<(Vec<U>, Vec<U>)> {
        match self.environment {
            Some(entries) => entries@,
            None => Seq::empty(),
        }
    }

    /// The size of the encoded configuration.
    pub open spec fn payload_size(&self) -> nat {
        36 + 4 * (1 + self.arguments@.len() + self.entries().len()) + native_size(
            self.executable@,
        ) + list_size(self.arguments@) + entries_size(self.entries()) + match self.cwd {
            Some(path) => native_size(path@),
            None => 0,
        }
    }

    /// Whether the dimensions are within native bounds.
    pub open spec fn dimensions_ok(&self) -> bool {
        &&& 1 <= self.rows <= MAX_CELL_DIMENSION
        &&& 1 <= self.columns <= MAX_CELL_DIMENSION
        &&& self.pixel_width <= MAX_PIXEL_DIMENSION
        &&& self.pixel_height <= MAX_PIXEL_DIMENSION
    }

    /// Whether no argument, entry or path holds a NUL and every key is usable.
    pub open spec fn values_ok(&self) -> bool {
        &&& forall|i: int|
            0 <= i < self.arguments@.len() ==> !has_unit((#[trigger] self.arguments@[i])@, 0)
        &&& self.cwd matches Some(path) ==> !has_unit(path@, 0)
        &&& forall|i: int|
            0 <= i < self.entries().len() ==> entry_ok(#[trigger] self.entries()[i])
    }

    /// The text of the rejection of this configuration, if it is rejected.
    pub open spec fn rejection(&self) -> Option<Seq<char>> {
        if self.arguments@.len() > MAX_ARGUMENTS {
            Some("spawn argument count exceeds 256"@)
        } else if self.entries().len() > MAX_ENVIRONMENT {
            Some("spawn environment count exceeds 4096"@)
        } else if !self.dimensions_ok() {
            Some("terminal dimensions are outside native bounds"@)
        } else if self.graceful_close_timeout > MAX_CLOSE_TIMEOUT {
            Some("graceful close timeout exceeds 60 seconds"@)
        } else if self.executable@.len() == 0 || has_unit(self.executable@, 0) {
            Some("executable is empty or contains NUL"@)
        } else if !self.values_ok() {
            Some("spawn value contains an invalid NUL or environment key"@)
        } else if self.payload_size() > usize::MAX {
            Some("encoded process spawn payload size overflowed"@)
        } else if self.payload_size() > MAX_SPAWN_PAYLOAD {
            Some("encoded process spawn payload exceeds 64 KiB"@)
        } else {
            None
        }
    }

    /// Checks every bound of the configuration.
    pub fn validate(&self) -> (result: Result<(), IoError>)
        ensures
            match result {
                Ok(()) => self.rejection() is None,
                Err(error) => self.rejection() matches Some(text) && error.is_simple(
                    ErrorKind::InvalidInput,
                    text,
                ),
            },
    {
        if self.arguments.len() > MAX_ARGUMENTS {
            return invalid("spawn argument count exceeds 256");
        }
        if let Some(environment) = &self.environment {
            if environment.len() > MAX_ENVIRONMENT {
                return invalid("spawn environment count exceeds 4096");
            }
        }
        if self.rows == 0 || self.columns == 0 || self.rows > MAX_CELL_DIMENSION || self.columns
            > MAX_CELL_DIMENSION || self.pixel_width > MAX_PIXEL_DIMENSION || self.pixel_height
            > MAX_PIXEL_DIMENSION {
            return invalid("terminal dimensions are outside native bounds");
        }
        if self.graceful_close_timeout > MAX_CLOSE_TIMEOUT {
            return invalid("graceful close timeout exceeds 60 seconds");
        }
        if self.executable.len() == 0 || contains_unit(&self.executable, 0) {
            return invalid("executable is empty or contains NUL");
        }
        if !self.values_are_ok() {
            return invalid("spawn value contains an invalid NUL or environment key");
        }
        match self.encoded_payload_size() {
            Ok(size) => {
                if size > MAX_SPAWN_PAYLOAD {
                    return invalid("encoded process spawn payload exceeds 64 KiB");
                }
                Ok(())
            },
            Err(error) => Err(error),
        }
    }

    /// Whether no argument, entry or path holds a NUL and every key is usable.
    fn values_are_ok(&self) -> (ok: bool)
        ensures
            ok == self.values_ok(),
    {
        for index in 0..self.arguments.len()
            invariant
                forall|i: int|
                    0 <= i < index ==> !has_unit((#[trigger] self.arguments@[i])@, 0),
        {
            if contains_unit(&self.arguments[index], 0) {
                return false;
            }
        }
        if let Some(path) = &self.cwd {
            if contains_unit(path, 0) {
                return false;
            }
        }
        if let Some(environment) = &self.environment {
            for index in 0..environment.len()
                invariant
                    self.environment == Some(*environment),
                    forall|i: int| 0 <= i < index ==> entry_ok(#[trigger] environment@[i]),
            {
                let entry = &environment[index];
                if entry.0.len() == 0 || contains_unit(&entry.0, 61) || contains_unit(&entry.0, 0)
                    || contains_unit(&entry.1, 0) {
                    assert(!entry_ok(self.entries()[index as int]));
                    return false;
                }
            }
        }
        true
    }

    /// The size of the encoded configuration, unless it exceeds what a size holds.
    pub fn encoded_payload_size(&self) -> (result: Result<usize, IoError>)
        requires
            1 + self.arguments@.len() + self.entries().len() <= usize::MAX,
        ensures
            match result {
                Ok(size) => size == self.payload_size(),
                Err(error) => self.payload_size() > usize::MAX && error.is_simple(
                    ErrorKind::InvalidInput,
                    "encoded process spawn payload size overflowed"@,
                ),
            },
    {
        let environment_count: usize = match &self.environment {
            Some(environment) => environment.len(),
            None => 0,
        };
        let count: usize = 1 + self.arguments.len() + environment_count;
        let Some(prefixes) = 4usize.checked_mul(count) else {
            return Err(payload_overflow());
        };
        let Some(fixed) = 36usize.checked_add(prefixes) else {
            return Err(payload_overflow());
        };
        let Some(mut size) = plus_text(fixed, &self.executable) else {
            return Err(payload_overflow());
        };
        let ghost base = size as nat;
        for index in 0..self.arguments.len()
            invariant
                size == base + list_size(self.arguments@.take(index as int)),
                base == 36 + 4 * (1 + self.arguments@.len() + self.entries().len()) + native_size(
                    self.executable@,
                ),
        {
            proof {
                let taken = self.arguments@.take(index + 1);
                assert(taken.drop_last() =~= self.arguments@.take(index as int));
                list_size_grows(self.arguments@, index + 1);
            }
            size = match plus_text(size, &self.arguments[index]) {
                Some(value) => value,
                None => {
                    return Err(payload_overflow());
                },
            };
        }
        assert(self.arguments@.take(self.arguments@.len() as int) =~= self.arguments@);
        let ghost with_arguments = size as nat;
        if let Some(environment) = &self.environment {
            for index in 0..environment.len()
                invariant
                    self.environment == Some(*environment),
                    size == with_arguments + entries_size(environment@.take(index as int)),
                    with_arguments == 36 + 4 * (1 + self.arguments@.len() + self.entries().len())
                        + native_size(self.executable@) + list_size(self.arguments@),
            {
                proof {
                    let taken = environment@.take(index + 1);
                    assert(taken.drop_last() =~= environment@.take(index as int));
                    entries_size_grows(environment@, index + 1);
                }
                let entry = &environment[index];
                let Some(with_key) = plus_text(size, &entry.0) else {
                    return Err(payload_overflow());
                };
                let Some(with_value) = plus_text(with_key, &entry.1) else {
                    return Err(payload_overflow());
                };
                size = match with_value.checked_add(1) {
                    Some(value) => value,
                    None => {
                        return Err(payload_overflow());
                    },
                };
            }
            assert(environment@.take(environment@.len() as int) =~= environment@);
        }
        if let Some(path) = &self.cwd {
            size = match plus_text(size, path) {
                Some(value) => value,
                None => {
                    return Err(payload_overflow());
                },
            };
        }
        Ok(size)
    }
}

/// Whether an environment entry has a usable key and no NUL.
pub open spec fn entry_ok<U: NativeUnit>(entry: (Vec<U>, Vec<U>)) -> bool {
    &&& entry.0@.len() > 0
    &&& !has_unit(entry.0@, 61)
    &&& !has_unit(entry.0@, 0)
    &&& !has_unit(entry.1@, 0)
}

/// A part of a list is no larger than the list.
proof fn list_size_grows<U: NativeUnit>(strings: Seq<Vec<U>>, count: int)
    requires
        0 <= count <= strings.len(),
    ensures
        list_size(strings.take(count)) <= list_size(strings),
    decreases strings.len(),
{
    if count == strings.len() {
        assert(strings.take(count) =~= strings);
    } else {
        assert(strings.take(count) =~= strings.drop_last().take(count));
        list_size_grows(strings.drop_last(), count);
    }
}

/// A part of an environment is no larger than the environment.
proof fn entries_size_grows<U: NativeUnit>(entries: Seq<(Vec<U>, Vec<U>)>, count: int)
    requires
        0 <= count <= entries.len(),
    ensures
        entries_size(entries.take(count)) <= entries_size(entries),
    decreases entries.len(),
{
    if count == entries.len() {
        assert(entries.take(count) =~= entries);
    } else {
        assert(entries.take(count) =~= entries.drop_last().take(count));
        entries_size_grows(entries.drop_last(), count);
    }
}

/// A size with that of a string added, unless the sum exceeds what a size holds.
fn plus_text<U: NativeUnit>(size: usize, text: &Vec<U>) -> (sum: Option<usize>)
    ensures
        match sum {
            Some(value) => value == size + native_size(text@),
            None => size + native_size(text@) > usize::MAX,
        },
{
    let width: usize = U::unit_width();
    let count: usize = text.len();
    assert(native_size(text@) == count || native_size(text@) == count + count) by {
        assert(width == 1 || width == 2);
        assert(count * 1 == count && count * 2 == count + count) by (nonlinear_arith);
    }
    let Some(once) = size.checked_add(count) else {
        return None;
    };
    if width == 1 {
        assert(count * 1 == count);
        Some(once)
    } else {
        assert(count * 2 == count + count);
        once.checked_add(count)
    }
}

/// Whether a string holds a unit with this number.
pub fn contains_unit<U: NativeUnit>(text: &Vec<U>, code: u16) -> (found: bool)
    ensures
        found == has_unit(text@, code as nat),
{
    for index in 0..text.len()
        invariant
            forall|i: int| 0 <= i < index ==> (#[trigger] text@[i]).code() != code,
    {
        let unit: u16 = text[index].unit();
        if unit == code {
            assert(text@[index as int].code() == code);
            return true;
        }
    }
    false
}

/// The rejection of a configuration.
fn invalid(message: &str) -> (result: Result<(), IoError>)
    ensures
        result matches Err(error) && error.is_simple(ErrorKind::InvalidInput, message@),
{
    Err(IoError::new(ErrorKind::InvalidInput, message))
}

/// The rejection of a configuration whose size exceeds what a size holds.
fn payload_overflow() -> (error: IoError)
    ensures
        error.is_simple(
            ErrorKind::InvalidInput,
            "encoded process spawn payload size overflowed"@,
        ),
{
    IoError::new(ErrorKind::InvalidInput, "encoded process spawn payload size overflowed")
}

/// An environment entry as the process interface takes it.
pub open spec fn entry_text(entry: (Vec<u8>, Vec<u8>)) -> Seq<u8> {
    entry.0@.push(61) + entry.1@
}

/// Environment entries as the process interface takes them.
pub open spec fn entry_texts(entries: Seq<(Vec<u8>, Vec<u8>)>) -> Seq<Seq<u8>> {
    entries.map_values(|entry: (Vec<u8>, Vec<u8>)| entry_text(entry))
}

impl BrokerSpawn<u8> {
    /// The request that stands for this configuration.
    pub open spec fn request(&self) -> SpawnModel {
        SpawnModel {
            inject: false,
            argv: seq![self.executable@] + spawn_payload::texts(self.arguments@),
            environment: match self.environment {
                Some(entries) => Some(entry_texts(entries@)),
                None => None,
            },
            cwd: match self.cwd {
                Some(path) => Some(path@),
                None => None,
            },
            size: WindowSize {
                ws_row: self.rows as u16,
                ws_col: self.columns as u16,
                ws_xpixel: self.pixel_width as u16,
                ws_ypixel: self.pixel_height as u16,
            },
        }
    }

    /// Whether the broker accepts the encoded request: there is room for the
    /// executable beside the arguments, no argument is empty, and a working directory
    /// is named if one is given.
    pub open spec fn is_decodable(&self) -> bool {
        &&& self.arguments@.len() < MAX_ARGUMENTS
        &&& forall|i: int|
            0 <= i < self.arguments@.len() ==> (#[trigger] self.arguments@[i])@.len() > 0
        &&& self.cwd matches Some(path) ==> path@.len() > 0
    }

    /// Validates and encodes the configuration.
    pub fn encode(&self, order: ByteOrder) -> (result: Result<Vec<u8>, IoError>)
        ensures
            match result {
                Ok(payload) => self.rejection() is None && payload@ == spawn_payload::full_bytes(
                    order,
                    self.request(),
                ),
                Err(error) => self.rejection() matches Some(text) && error.is_simple(
                    ErrorKind::InvalidInput,
                    text,
                ),
            },
    {
        match self.validate() {
            Ok(()) => {},
            Err(error) => {
                return Err(error);
            },
        }
        let ghost model = self.request();
        let mut payload: Vec<u8> = Vec::new();
        wire::put_u32(&mut payload, order, 0);
        wire::put_u32(&mut payload, order, spawn_payload::SPAWN_V2);
        wire::put_u32(&mut payload, order, (self.arguments.len() + 1) as u32);
        let entry_count: u32 = match &self.environment {
            Some(environment) => environment.len() as u32,
            None => u32::MAX,
        };
        wire::put_u32(&mut payload, order, entry_count);
        wire::put_u32(&mut payload, order, self.rows);
        wire::put_u32(&mut payload, order, self.columns);
        wire::put_u32(&mut payload, order, self.pixel_width);
        wire::put_u32(&mut payload, order, self.pixel_height);
        let cwd_length: u32 = match &self.cwd {
            Some(path) => path.len() as u32,
            None => 0,
        };
        wire::put_u32(&mut payload, order, cwd_length);
        assert(payload@ =~= spawn_payload::full_header(order, model));
        self.put_arguments(&mut payload, order);
        let ghost with_arguments = payload@;
        if let Some(environment) = &self.environment {
            put_entries(&mut payload, order, environment);
        }
        assert(payload@ =~= with_arguments + spawn_payload::environment_bytes(
            order,
            model.environment,
        ));
        let ghost with_environment = payload@;
        if let Some(path) = &self.cwd {
            payload.extend_from_slice(path.as_slice());
        }
        assert(payload@ =~= with_environment + spawn_payload::cwd_bytes(model.cwd));
        Ok(payload)
    }

    /// Appends the executable and the arguments.
    fn put_arguments(&self, payload: &mut Vec<u8>, order: ByteOrder)
        requires
            self.rejection() is None,
        ensures
            final(payload)@ == old(payload)@ + spawn_payload::list_bytes(
                order,
                self.request().argv,
            ),
    {
        let ghost argv = self.request().argv;
        let ghost start = payload@;
        put_text(payload, order, &self.executable);
        proof {
            assert(argv.take(1) =~= seq![self.executable@]);
            reveal_with_fuel(spawn_payload::list_bytes, 2);
            assert(seq![self.executable@].drop_last() =~= Seq::<Seq<u8>>::empty());
            assert(payload@ =~= start + spawn_payload::list_bytes(order, argv.take(1)));
        }
        for index in 0..self.arguments.len()
            invariant
                argv == self.request().argv,
                payload@ == start + spawn_payload::list_bytes(order, argv.take(index + 1)),
        {
            put_text(payload, order, &self.arguments[index]);
            proof {
                let taken = argv.take(index + 2);
                assert(taken.drop_last() =~= argv.take(index + 1));
                assert(taken.last() == self.arguments@[index as int]@);
                assert(payload@ =~= start + spawn_payload::list_bytes(order, taken));
            }
        }
        assert(argv.take(argv.len() as int) =~= argv);
    }
}

/// Appends one string behind its length.
fn put_text(payload: &mut Vec<u8>, order: ByteOrder, text: &Vec<u8>)
    ensures
        final(payload)@ == old(payload)@ + spawn_payload::text_bytes(order, text@),
{
    let length: u32 = text.len() as u32;
    wire::put_u32(payload, order, length);
    payload.extend_from_slice(text.as_slice());
    assert(payload@ =~= old(payload)@ + spawn_payload::text_bytes(order, text@));
}

/// Appends one environment entry behind its length.
fn put_entry(payload: &mut Vec<u8>, order: ByteOrder, entry: &(Vec<u8>, Vec<u8>))
    requires
        entry.0@.len() + 1 + entry.1@.len() <= MAX_SPAWN_PAYLOAD,
    ensures
        final(payload)@ == old(payload)@ + spawn_payload::text_bytes(order, entry_text(*entry)),
{
    let ghost start = payload@;
    let length: u32 = (entry.0.len() + 1 + entry.1.len()) as u32;
    let ghost head = wire::u32_bytes(order, length);
    wire::put_u32(payload, order, length);
    payload.extend_from_slice(entry.0.as_slice());
    payload.push(61);
    payload.extend_from_slice(entry.1.as_slice());
    proof {
        let text = entry_text(*entry);
        assert(text.len() == length);
        assert(payload@ =~= start + (head + text));
    }
}

/// Appends environment entries, each behind its length.
fn put_entries(payload: &mut Vec<u8>, order: ByteOrder, entries: &Vec<(Vec<u8>, Vec<u8>)>)
    requires
        entries_size(entries@) <= MAX_SPAWN_PAYLOAD,
    ensures
        final(payload)@ == old(payload)@ + spawn_payload::list_bytes(
            order,
            entry_texts(entries@),
        ),
{
    let ghost start = payload@;
    let ghost strings = entry_texts(entries@);
    proof {
        assert(strings.take(0) =~= Seq::<Seq<u8>>::empty());
        assert(payload@ =~= start + spawn_payload::list_bytes(order, strings.take(0)));
    }
    for index in 0..entries.len()
        invariant
            strings == entry_texts(entries@),
            entries_size(entries@) <= MAX_SPAWN_PAYLOAD,
            payload@ == start + spawn_payload::list_bytes(order, strings.take(index as int)),
    {
        let entry = &entries[index];
        proof {
            entries_size_grows(entries@, index + 1);
            assert(entries@.take(index + 1).last() == *entry);
        }
        put_entry(payload, order, entry);
        proof {
            let taken = strings.take(index + 1);
            assert(taken.drop_last() =~= strings.take(index as int));
            assert(taken.last() == entry_text(*entry));
            assert(payload@ =~= start + spawn_payload::list_bytes(order, taken));
        }
    }
    assert(strings.take(strings.len() as int) =~= strings);
}

/// The broker decodes a configuration that it was sent into the request that stands
/// for it.
pub proof fn broker_receives_configuration(config: BrokerSpawn<u8>, order: ByteOrder)
    requires
        config.rejection() is None,
        config.is_decodable(),
    ensures
        spawn_payload::spawn_parse(
            order,
            spawn_payload::full_bytes(order, config.request()),
        ) == Ok::<SpawnModel, Seq<char>>(config.request()),
{
    let model = config.request();
    assert forall|i: int| 0 <= i < model.argv.len() implies spawn_payload::is_text(
        #[trigger] model.argv[i],
    ) && model.argv[i].len() <= u32::MAX by {
        if i == 0 {
            nul_free(config.executable@);
        } else {
            let argument = config.arguments@[i - 1];
            assert(model.argv[i] == argument@);
            nul_free(argument@);
            list_size_of_one(config.arguments@, i - 1);
        }
    }
    if let Some(entries) = config.environment {
        let strings = entry_texts(entries@);
        assert forall|i: int| 0 <= i < strings.len() implies spawn_payload::is_text(
            #[trigger] strings[i],
        ) && strings[i].len() <= u32::MAX by {
            let entry = entries@[i];
            assert(config.entries()[i] == entry);
            assert(entry_ok(entry));
            nul_free(entry.0@);
            nul_free(entry.1@);
            entries_size_of_one(entries@, i);
            let text = entry_text(entry);
            assert forall|j: int| 0 <= j < text.len() implies text[j] != 0 by {
                if j < entry.0@.len() {
                    assert(text[j] == entry.0@[j]);
                } else if j > entry.0@.len() {
                    assert(text[j] == entry.1@[j - entry.0@.len() - 1]);
                }
            }
        }
    }
    if let Some(path) = config.cwd {
        nul_free(path@);
    }
    spawn_payload::full_decode_inverts_encode(order, model);
}

/// An accepted configuration fits into a frame: its encoding has the size that
/// validation computed.
pub proof fn configuration_fits_a_frame(config: BrokerSpawn<u8>, order: ByteOrder)
    requires
        config.rejection() is None,
    ensures
        spawn_payload::full_bytes(order, config.request()).len() == config.payload_size(),
        spawn_payload::full_bytes(order, config.request()).len() <= crate::frame::MAX_PAYLOAD,
{
    let model = config.request();
    assert(forall|value: u32| #[trigger] wire::u32_bytes(order, value).len() == 4);
    texts_length(order, config.arguments@);
    let rest = spawn_payload::texts(config.arguments@);
    list_length_prepend(order, config.executable@, rest);
    entry_texts_length(order, config.entries());
}

/// The encoding of strings is as long as the strings and their lengths.
proof fn texts_length(order: ByteOrder, strings: Seq<Vec<u8>>)
    ensures
        spawn_payload::list_bytes(order, spawn_payload::texts(strings)).len() == 4 * strings.len()
            + list_size(strings),
    decreases strings.len(),
{
    let all = spawn_payload::texts(strings);
    if strings.len() > 0 {
        assert(all.drop_last() =~= spawn_payload::texts(strings.drop_last()));
        texts_length(order, strings.drop_last());
        assert(wire::u32_bytes(order, all.last().len() as u32).len() == 4);
    }
}

/// The encoding of entries is as long as the entries and their lengths.
proof fn entry_texts_length(order: ByteOrder, entries: Seq<(Vec<u8>, Vec<u8>)>)
    ensures
        spawn_payload::list_bytes(order, entry_texts(entries)).len() == 4 * entries.len()
            + entries_size(entries),
    decreases entries.len(),
{
    let all = entry_texts(entries);
    if entries.len() > 0 {
        assert(all.drop_last() =~= entry_texts(entries.drop_last()));
        entry_texts_length(order, entries.drop_last());
        assert(wire::u32_bytes(order, all.last().len() as u32).len() == 4);
    }
}

/// The length of an encoding with one more string in front.
proof fn list_length_prepend(order: ByteOrder, first: Seq<u8>, rest: Seq<Seq<u8>>)
    ensures
        spawn_payload::list_bytes(order, seq![first] + rest).len() == 4 + first.len()
            + spawn_payload::list_bytes(order, rest).len(),
    decreases rest.len(),
{
    let all = seq![first] + rest;
    assert(wire::u32_bytes(order, all.last().len() as u32).len() == 4);
    if rest.len() == 0 {
        assert(all.drop_last() =~= Seq::<Seq<u8>>::empty());
        assert(spawn_payload::list_bytes(order, all.drop_last()).len() == 0);
    } else {
        assert(all.drop_last() =~= seq![first] + rest.drop_last());
        list_length_prepend(order, first, rest.drop_last());
    }
}

/// A string without NUL holds no zero byte.
proof fn nul_free(text: Seq<u8>)
    requires
        !has_unit(text, 0),
    ensures
        !text.contains(0),
{
    assert forall|i: int| 0 <= i < text.len() implies text[i] != 0 by {
        assert(text[i].code() != 0);
    }
}

/// One string is no larger than the list.
proof fn list_size_of_one(strings: Seq<Vec<u8>>, index: int)
    requires
        0 <= index < strings.len(),
    ensures
        strings[index]@.len() <= list_size(strings),
{
    let taken = strings.take(index + 1);
    assert(taken.last() == strings[index]);
    list_size_grows(strings, index + 1);
}

/// One entry is no larger than the environment.
proof fn entries_size_of_one(entries: Seq<(Vec<u8>, Vec<u8>)>, index: int)
    requires
        0 <= index < entries.len(),
    ensures
        entries[index].0@.len() + entries[index].1@.len() + 1 <= entries_size(entries),
{
    let taken = entries.take(index + 1);
    assert(taken.last() == entries[index]);
    entries_size_grows(entries, index + 1);
}

} // verus!

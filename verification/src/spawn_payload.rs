//! The payload of a spawn request.
//!
//! Two layouts exist. The short one carries an argument vector. The full one also
//! carries the environment, the working directory and the terminal size.
use crate::fault::{ErrorKind, IoError};
use crate::wire::{self, ByteOrder};
use vstd::prelude::*;
use vstd::slice::slice_subrange;
use vstd::slice::slice_to_vec;

verus! {

/// Stands where the short layout has its argument count, and marks the full one.
pub const SPAWN_V2: u32 = 0x5854_5950;

/// The bound on the argument count of the short layout.
pub const MAX_SHORT_ARGUMENTS: usize = 32;

/// The bound on the argument count of the full layout.
pub const MAX_FULL_ARGUMENTS: usize = 256;

/// The bound on the environment count of the full layout.
pub const MAX_ENTRIES: u32 = 4096;

/// The length of the fixed part of the full layout.
pub const FULL_HEADER: usize = 36;

/// Terminal dimensions as the kernel takes them.
#[derive(Clone, Copy, Debug, PartialEq, Eq, Structural)]
pub struct WindowSize {
    pub ws_row: u16,
    pub ws_col: u16,
    pub ws_xpixel: u16,
    pub ws_ypixel: u16,
}

/// A decoded spawn request.
#[derive(Clone, Debug, PartialEq, Eq)]
pub struct SpawnRequest {
    pub inject: bool,
    pub argv: Vec<Vec<u8>>,
    pub environment: Option<Vec<Vec<u8>>>,
    pub cwd: Option<Vec<u8>>,
    pub size: WindowSize,
}

/// A spawn request over sequences.
#[verifier::ext_equal]
pub struct SpawnModel {
    pub inject: bool,
    pub argv: Seq<Seq<u8>>,
    pub environment: Option<Seq<Seq<u8>>>,
    pub cwd: Option<Seq<u8>>,
    pub size: WindowSize,
}

/// The contents of a vector of byte strings.
pub open spec fn texts(strings: Seq<Vec<u8>>) -> Seq<Seq<u8>> {
    strings.map_values(|text: Vec<u8>| text@)
}

impl View for SpawnRequest {
    type V = SpawnModel;

    open spec fn view(&self) -> SpawnModel {
        SpawnModel {
            inject: self.inject,
            argv: texts(self.argv@),
            environment: match self.environment {
                Some(entries) => Some(texts(entries@)),
                None => None,
            },
            cwd: match self.cwd {
                Some(path) => Some(path@),
                None => None,
            },
            size: self.size,
        }
    }
}

/// The size that the short layout stands for.
pub open spec fn default_size() -> WindowSize {
    WindowSize { ws_row: 24, ws_col: 80, ws_xpixel: 0, ws_ypixel: 0 }
}

/// A string that can cross the process interface and is not empty.
pub open spec fn is_text(text: Seq<u8>) -> bool {
    text.len() > 0 && !text.contains(0)
}

/// One string behind its length.
pub open spec fn text_bytes(order: ByteOrder, text: Seq<u8>) -> Seq<u8> {
    wire::u32_bytes(order, text.len() as u32) + text
}

/// Strings, each behind its length.
pub open spec fn list_bytes(order: ByteOrder, strings: Seq<Seq<u8>>) -> Seq<u8>
    decreases strings.len(),
{
    if strings.len() == 0 {
        Seq::empty()
    } else {
        list_bytes(order, strings.drop_last()) + text_bytes(order, strings.last())
    }
}

/// Reads one string at an offset: the string and the offset behind it, or the text
/// of the rejection.
pub open spec fn parse_text(order: ByteOrder, payload: Seq<u8>, at: int, full: bool) -> Result<
    (Seq<u8>, int),
    Seq<char>,
> {
    if payload.len() - at < 4 {
        Err(if full { "short spawn field"@ } else { "short arg"@ })
    } else {
        let length = wire::u32_at(order, payload, at);
        if length == 0 || payload.len() - (at + 4) < length {
            Err(if full { "bad spawn string"@ } else { "bad arg"@ })
        } else if payload.subrange(at + 4, at + 4 + length).contains(0) {
            Err(if full { "NUL spawn string"@ } else { "NUL argument"@ })
        } else {
            Ok((payload.subrange(at + 4, at + 4 + length), at + 4 + length))
        }
    }
}

/// Reads this many strings from an offset on.
pub open spec fn parse_list(
    order: ByteOrder,
    payload: Seq<u8>,
    at: int,
    count: nat,
    full: bool,
) -> Result<(Seq<Seq<u8>>, int), Seq<char>>
    decreases count,
{
    if count == 0 {
        Ok((Seq::empty(), at))
    } else {
        match parse_list(order, payload, at, (count - 1) as nat, full) {
            Err(text) => Err(text),
            Ok((strings, offset)) => match parse_text(order, payload, offset, full) {
                Err(text) => Err(text),
                Ok((string, next)) => Ok((strings.push(string), next)),
            },
        }
    }
}

/// What a payload in the short layout decodes to.
pub open spec fn parse_short(order: ByteOrder, payload: Seq<u8>) -> Result<SpawnModel, Seq<char>> {
    let count = wire::u32_at(order, payload, 4);
    if count == 0 || count > MAX_SHORT_ARGUMENTS {
        Err("bad argc"@)
    } else {
        match parse_list(order, payload, 8, count as nat, false) {
            Err(text) => Err(text),
            Ok((argv, offset)) => if offset != payload.len() {
                Err("trailing spawn payload"@)
            } else {
                Ok(
                    SpawnModel {
                        inject: wire::u32_at(order, payload, 0) != 0,
                        argv,
                        environment: None,
                        cwd: None,
                        size: default_size(),
                    },
                )
            },
        }
    }
}

/// The environment of a payload in the full layout, and the offset behind it.
pub open spec fn parse_environment(order: ByteOrder, payload: Seq<u8>, at: int) -> Result<
    (Option<Seq<Seq<u8>>>, int),
    Seq<char>,
> {
    let count = wire::u32_at(order, payload, 12);
    if count == u32::MAX {
        Ok((None, at))
    } else {
        match parse_list(order, payload, at, count as nat, true) {
            Err(text) => Err(text),
            Ok((entries, offset)) => Ok((Some(entries), offset)),
        }
    }
}

/// The working directory of a payload in the full layout, and the offset behind it.
pub open spec fn parse_cwd(order: ByteOrder, payload: Seq<u8>, at: int) -> Result<
    (Option<Seq<u8>>, int),
    Seq<char>,
> {
    let length = wire::u32_at(order, payload, 32);
    if length == 0 {
        Ok((None, at))
    } else if payload.len() - at < length {
        Err("short cwd"@)
    } else if payload.subrange(at, at + length).contains(0) {
        Err("NUL cwd"@)
    } else {
        Ok((Some(payload.subrange(at, at + length)), at + length))
    }
}

/// The terminal size of a payload in the full layout.
pub open spec fn parse_size(order: ByteOrder, payload: Seq<u8>) -> Result<WindowSize, Seq<char>> {
    let rows = wire::u32_at(order, payload, 16);
    let columns = wire::u32_at(order, payload, 20);
    let pixel_width = wire::u32_at(order, payload, 24);
    let pixel_height = wire::u32_at(order, payload, 28);
    if rows > u16::MAX {
        Err("rows exceed platform limit"@)
    } else if columns > u16::MAX {
        Err("columns exceed platform limit"@)
    } else if pixel_width > u16::MAX {
        Err("pixel width exceeds platform limit"@)
    } else if pixel_height > u16::MAX {
        Err("pixel height exceeds platform limit"@)
    } else {
        Ok(
            WindowSize {
                ws_row: rows as u16,
                ws_col: columns as u16,
                ws_xpixel: pixel_width as u16,
                ws_ypixel: pixel_height as u16,
            },
        )
    }
}

/// What a payload in the full layout decodes to.
pub open spec fn parse_full(order: ByteOrder, payload: Seq<u8>) -> Result<SpawnModel, Seq<char>> {
    let argc = wire::u32_at(order, payload, 8);
    let entries = wire::u32_at(order, payload, 12);
    if payload.len() < FULL_HEADER {
        Err("short v2 spawn"@)
    } else if argc == 0 || argc > MAX_FULL_ARGUMENTS {
        Err("bad argc"@)
    } else if entries != u32::MAX && entries > MAX_ENTRIES {
        Err("bad environment count"@)
    } else {
        match parse_list(order, payload, FULL_HEADER as int, argc as nat, true) {
            Err(text) => Err(text),
            Ok((argv, after_argv)) => match parse_environment(order, payload, after_argv) {
                Err(text) => Err(text),
                Ok((environment, after_environment)) => match parse_cwd(
                    order,
                    payload,
                    after_environment,
                ) {
                    Err(text) => Err(text),
                    Ok((cwd, end)) => if end != payload.len() {
                        Err("trailing v2 spawn payload"@)
                    } else {
                        match parse_size(order, payload) {
                            Err(text) => Err(text),
                            Ok(size) => Ok(
                                SpawnModel {
                                    inject: wire::u32_at(order, payload, 0) != 0,
                                    argv,
                                    environment,
                                    cwd,
                                    size,
                                },
                            ),
                        }
                    },
                },
            },
        }
    }
}

/// What a spawn payload decodes to.
pub open spec fn spawn_parse(order: ByteOrder, payload: Seq<u8>) -> Result<SpawnModel, Seq<char>> {
    if payload.len() < 8 {
        Err("short spawn"@)
    } else if wire::u32_at(order, payload, 4) == SPAWN_V2 {
        parse_full(order, payload)
    } else {
        parse_short(order, payload)
    }
}

/// Whether a byte string holds a zero byte.
pub fn contains_nul(bytes: &[u8]) -> (found: bool)
    ensures
        found == bytes@.contains(0),
{
    for index in 0..bytes.len()
        invariant
            forall|i: int| 0 <= i < index ==> bytes@[i] != 0,
    {
        if bytes[index] == 0 {
            return true;
        }
    }
    false
}

/// The rejection of a payload.
fn rejected(text: &str) -> (error: IoError)
    ensures
        error.is_simple(ErrorKind::InvalidData, text@),
{
    IoError::new(ErrorKind::InvalidData, text)
}

/// Reads one string and moves the offset behind it.
fn read_string(payload: &[u8], order: ByteOrder, offset: &mut usize, full: bool) -> (result: Result<
    Vec<u8>,
    IoError,
>)
    requires
        *old(offset) <= payload@.len(),
    ensures
        match (result, parse_text(order, payload@, *old(offset) as int, full)) {
            (Ok(text), Ok((expected, next))) => text@ == expected && *final(offset) == next
                && next <= payload@.len(),
            (Err(error), Err(text)) => error.is_simple(ErrorKind::InvalidData, text),
            _ => false,
        },
{
    if payload.len() - *offset < 4 {
        return Err(rejected(if full { "short spawn field" } else { "short arg" }));
    }
    let length: usize = wire::get_u32(payload, order, *offset) as usize;
    let start: usize = *offset + 4;
    if length == 0 || payload.len() - start < length {
        return Err(rejected(if full { "bad spawn string" } else { "bad arg" }));
    }
    let text = slice_subrange(payload, start, start + length);
    if contains_nul(text) {
        return Err(rejected(if full { "NUL spawn string" } else { "NUL argument" }));
    }
    *offset = start + length;
    Ok(slice_to_vec(text))
}

/// A rejection among the first strings is the rejection of all of them.
proof fn parse_list_rejects(
    order: ByteOrder,
    payload: Seq<u8>,
    at: int,
    some: nat,
    count: nat,
    full: bool,
)
    requires
        some <= count,
        parse_list(order, payload, at, some, full) is Err,
    ensures
        parse_list(order, payload, at, count, full) == parse_list(order, payload, at, some, full),
    decreases count,
{
    if some < count {
        parse_list_rejects(order, payload, at, some, (count - 1) as nat, full);
    }
}

/// Reads this many strings and moves the offset behind them.
fn read_strings(
    payload: &[u8],
    order: ByteOrder,
    offset: &mut usize,
    count: usize,
    full: bool,
) -> (result: Result<Vec<Vec<u8>>, IoError>)
    requires
        *old(offset) <= payload@.len(),
    ensures
        match (result, parse_list(order, payload@, *old(offset) as int, count as nat, full)) {
            (Ok(strings), Ok((expected, next))) => texts(strings@) == expected && *final(offset)
                == next && next <= payload@.len(),
            (Err(error), Err(text)) => error.is_simple(ErrorKind::InvalidData, text),
            _ => false,
        },
{
    let ghost start = *offset as int;
    let mut strings: Vec<Vec<u8>> = Vec::new();
    let mut index: usize = 0;
    assert(texts(strings@) =~= Seq::<Seq<u8>>::empty());
    while index < count
        invariant
            index <= count,
            start == *old(offset),
            *offset <= payload@.len(),
            parse_list(order, payload@, start, index as nat, full) == Ok::<
                (Seq<Seq<u8>>, int),
                Seq<char>,
            >((texts(strings@), *offset as int)),
        decreases count - index,
    {
        let ghost before = *offset as int;
        match read_string(payload, order, offset, full) {
            Ok(text) => {
                let ghost earlier = strings@;
                strings.push(text);
                assert(texts(strings@) =~= texts(earlier).push(text@));
            },
            Err(error) => {
                proof {
                    assert(parse_list(order, payload@, start, (index + 1) as nat, full) is Err);
                    parse_list_rejects(
                        order,
                        payload@,
                        start,
                        (index + 1) as nat,
                        count as nat,
                        full,
                    );
                }
                return Err(error);
            },
        }
        index = index + 1;
    }
    Ok(strings)
}

/// Decodes a spawn payload in the given byte order.
pub fn decode_spawn_in(payload: &[u8], order: ByteOrder) -> (result: Result<SpawnRequest, IoError>)
    ensures
        match (result, spawn_parse(order, payload@)) {
            (Ok(request), Ok(model)) => request@ == model,
            (Err(error), Err(text)) => error.is_simple(ErrorKind::InvalidData, text),
            _ => false,
        },
{
    if payload.len() < 8 {
        return Err(rejected("short spawn"));
    }
    let inject = wire::get_u32(payload, order, 0) != 0;
    let marker: u32 = wire::get_u32(payload, order, 4);
    if marker == SPAWN_V2 {
        return decode_spawn_v2(inject, payload, order);
    }
    let count: usize = marker as usize;
    if count == 0 || count > MAX_SHORT_ARGUMENTS {
        return Err(rejected("bad argc"));
    }
    let mut offset: usize = 8;
    let argv = match read_strings(payload, order, &mut offset, count, false) {
        Ok(strings) => strings,
        Err(error) => {
            return Err(error);
        },
    };
    if offset != payload.len() {
        return Err(rejected("trailing spawn payload"));
    }
    Ok(
        SpawnRequest {
            inject,
            argv,
            environment: None,
            cwd: None,
            size: WindowSize { ws_row: 24, ws_col: 80, ws_xpixel: 0, ws_ypixel: 0 },
        },
    )
}

/// Decodes a payload in the full layout.
fn decode_spawn_v2(inject: bool, payload: &[u8], order: ByteOrder) -> (result: Result<
    SpawnRequest,
    IoError,
>)
    requires
        payload@.len() >= 8,
        inject == (wire::u32_at(order, payload@, 0) != 0),
    ensures
        match (result, parse_full(order, payload@)) {
            (Ok(request), Ok(model)) => request@ == model,
            (Err(error), Err(text)) => error.is_simple(ErrorKind::InvalidData, text),
            _ => false,
        },
{
    if payload.len() < FULL_HEADER {
        return Err(rejected("short v2 spawn"));
    }
    let argc: usize = wire::get_u32(payload, order, 8) as usize;
    let environment_count: u32 = wire::get_u32(payload, order, 12);
    if argc == 0 || argc > MAX_FULL_ARGUMENTS {
        return Err(rejected("bad argc"));
    }
    if environment_count != u32::MAX && environment_count > MAX_ENTRIES {
        return Err(rejected("bad environment count"));
    }
    let mut offset: usize = FULL_HEADER;
    let argv = match read_strings(payload, order, &mut offset, argc, true) {
        Ok(strings) => strings,
        Err(error) => {
            return Err(error);
        },
    };
    let environment: Option<Vec<Vec<u8>>> = if environment_count == u32::MAX {
        None
    } else {
        match read_strings(payload, order, &mut offset, environment_count as usize, true) {
            Ok(strings) => Some(strings),
            Err(error) => {
                return Err(error);
            },
        }
    };
    let cwd_length: usize = wire::get_u32(payload, order, 32) as usize;
    let cwd: Option<Vec<u8>> = if cwd_length == 0 {
        None
    } else {
        if payload.len() - offset < cwd_length {
            return Err(rejected("short cwd"));
        }
        let path = slice_subrange(payload, offset, offset + cwd_length);
        if contains_nul(path) {
            return Err(rejected("NUL cwd"));
        }
        offset = offset + cwd_length;
        Some(slice_to_vec(path))
    };
    if offset != payload.len() {
        return Err(rejected("trailing v2 spawn payload"));
    }
    let size = match decode_size(payload, order) {
        Ok(size) => size,
        Err(error) => {
            return Err(error);
        },
    };
    Ok(SpawnRequest { inject, argv, environment, cwd, size })
}

/// Decodes the terminal size of a payload in the full layout.
fn decode_size(payload: &[u8], order: ByteOrder) -> (result: Result<WindowSize, IoError>)
    requires
        payload@.len() >= FULL_HEADER,
    ensures
        match (result, parse_size(order, payload@)) {
            (Ok(size), Ok(model)) => size == model,
            (Err(error), Err(text)) => error.is_simple(ErrorKind::InvalidData, text),
            _ => false,
        },
{
    let rows: u32 = wire::get_u32(payload, order, 16);
    let columns: u32 = wire::get_u32(payload, order, 20);
    let pixel_width: u32 = wire::get_u32(payload, order, 24);
    let pixel_height: u32 = wire::get_u32(payload, order, 28);
    if rows > 0xffff {
        return Err(rejected("rows exceed platform limit"));
    }
    if columns > 0xffff {
        return Err(rejected("columns exceed platform limit"));
    }
    if pixel_width > 0xffff {
        return Err(rejected("pixel width exceeds platform limit"));
    }
    if pixel_height > 0xffff {
        return Err(rejected("pixel height exceeds platform limit"));
    }
    Ok(
        WindowSize {
            ws_row: rows as u16,
            ws_col: columns as u16,
            ws_xpixel: pixel_width as u16,
            ws_ypixel: pixel_height as u16,
        },
    )
}

/// Decodes a spawn payload in the machine's own byte order.
pub fn decode_spawn(payload: &[u8]) -> (result: Result<SpawnRequest, IoError>)
    ensures
        exists|order: ByteOrder|
            match (result, #[trigger] spawn_parse(order, payload@)) {
                (Ok(request), Ok(model)) => request@ == model,
                (Err(error), Err(text)) => error.is_simple(ErrorKind::InvalidData, text),
                _ => false,
            },
{
    let order = wire::native_order();
    let result = decode_spawn_in(payload, order);
    assert(match (result, spawn_parse(order, payload@)) {
        (Ok(request), Ok(model)) => request@ == model,
        (Err(error), Err(text)) => error.is_simple(ErrorKind::InvalidData, text),
        _ => false,
    });
    result
}

/// Every string of a list can cross the process interface, is not empty, and has a
/// length that its field holds.
pub open spec fn are_texts(strings: Seq<Seq<u8>>) -> bool {
    forall|i: int|
        0 <= i < strings.len() ==> is_text(#[trigger] strings[i]) && strings[i].len() <= u32::MAX
}

/// A payload in the short layout.
pub open spec fn short_bytes(order: ByteOrder, inject: bool, argv: Seq<Seq<u8>>) -> Seq<u8> {
    wire::u32_bytes(order, if inject { 1 } else { 0 }) + wire::u32_bytes(order, argv.len() as u32)
        + list_bytes(order, argv)
}

/// The fixed part of a payload in the full layout.
pub open spec fn full_header(order: ByteOrder, model: SpawnModel) -> Seq<u8> {
    wire::u32_bytes(order, if model.inject { 1 } else { 0 }) + wire::u32_bytes(order, SPAWN_V2)
        + wire::u32_bytes(order, model.argv.len() as u32) + wire::u32_bytes(
        order,
        match model.environment {
            Some(entries) => entries.len() as u32,
            None => u32::MAX,
        },
    ) + wire::u32_bytes(order, model.size.ws_row as u32) + wire::u32_bytes(
        order,
        model.size.ws_col as u32,
    ) + wire::u32_bytes(order, model.size.ws_xpixel as u32) + wire::u32_bytes(
        order,
        model.size.ws_ypixel as u32,
    ) + wire::u32_bytes(order, cwd_bytes(model.cwd).len() as u32)
}

/// The working directory as it stands in a payload.
pub open spec fn cwd_bytes(cwd: Option<Seq<u8>>) -> Seq<u8> {
    match cwd {
        Some(path) => path,
        None => Seq::empty(),
    }
}

/// The environment as it stands in a payload.
pub open spec fn environment_bytes(order: ByteOrder, environment: Option<Seq<Seq<u8>>>) -> Seq<u8> {
    match environment {
        Some(entries) => list_bytes(order, entries),
        None => Seq::empty(),
    }
}

/// A payload in the full layout.
pub open spec fn full_bytes(order: ByteOrder, model: SpawnModel) -> Seq<u8> {
    full_header(order, model) + list_bytes(order, model.argv) + environment_bytes(
        order,
        model.environment,
    ) + cwd_bytes(model.cwd)
}

/// A request that the full layout can carry.
pub open spec fn is_request(model: SpawnModel) -> bool {
    &&& 1 <= model.argv.len() <= MAX_FULL_ARGUMENTS
    &&& are_texts(model.argv)
    &&& model.environment matches Some(entries) ==> entries.len() <= MAX_ENTRIES && are_texts(
        entries,
    )
    &&& model.cwd matches Some(path) ==> is_text(path) && path.len() <= u32::MAX
}

/// One string is read back from where it was written.
proof fn parse_text_inverts(
    order: ByteOrder,
    payload: Seq<u8>,
    at: int,
    text: Seq<u8>,
    full: bool,
)
    requires
        is_text(text),
        text.len() <= u32::MAX,
        0 <= at,
        at + 4 + text.len() <= payload.len(),
        payload.subrange(at, at + 4 + text.len()) == text_bytes(order, text),
    ensures
        parse_text(order, payload, at, full) == Ok::<(Seq<u8>, int), Seq<char>>(
            (text, at + 4 + text.len()),
        ),
{
    let written = text_bytes(order, text);
    let length = text.len() as u32;
    wire::u32_round_trip(order, length);
    assert(written.subrange(0, 4) =~= wire::u32_bytes(order, length));
    assert(payload.subrange(at, at + 4) =~= written.subrange(0, 4));
    wire::u32_at_offset(order, payload, at, wire::u32_bytes(order, length));
    assert(payload.subrange(at + 4, at + 4 + length) =~= text) by {
        assert forall|i: int| 0 <= i < text.len() implies payload[at + 4 + i] == text[i] by {
            assert(payload.subrange(at, at + 4 + text.len())[4 + i] == written[4 + i]);
        }
    }
}

/// A list is read back from where it was written.
proof fn parse_list_inverts(
    order: ByteOrder,
    payload: Seq<u8>,
    at: int,
    strings: Seq<Seq<u8>>,
    full: bool,
)
    requires
        are_texts(strings),
        0 <= at,
        at + list_bytes(order, strings).len() <= payload.len(),
        payload.subrange(at, at + list_bytes(order, strings).len()) == list_bytes(order, strings),
    ensures
        parse_list(order, payload, at, strings.len(), full) == Ok::<
            (Seq<Seq<u8>>, int),
            Seq<char>,
        >((strings, at + list_bytes(order, strings).len())),
    decreases strings.len(),
{
    if strings.len() == 0 {
        assert(strings =~= Seq::empty());
    } else {
        let front = strings.drop_last();
        let last = strings.last();
        let whole = list_bytes(order, strings);
        let head = list_bytes(order, front);
        assert(are_texts(front)) by {
            assert forall|i: int| 0 <= i < front.len() implies is_text(#[trigger] front[i])
                && front[i].len() <= u32::MAX by {
                assert(front[i] == strings[i]);
            }
        }
        assert(is_text(strings[strings.len() - 1]));
        assert(payload.subrange(at, at + head.len()) =~= head) by {
            assert forall|i: int| 0 <= i < head.len() implies payload[at + i] == head[i] by {
                assert(payload.subrange(at, at + whole.len())[i] == whole[i]);
            }
        }
        parse_list_inverts(order, payload, at, front, full);
        let middle = at + head.len();
        wire::u32_round_trip(order, last.len() as u32);
        let tail = text_bytes(order, last);
        assert(payload.subrange(middle, middle + tail.len()) =~= tail) by {
            assert forall|i: int| 0 <= i < tail.len() implies payload[middle + i] == tail[i] by {
                assert(payload.subrange(at, at + whole.len())[head.len() + i] == whole[head.len()
                    + i]);
            }
        }
        parse_text_inverts(order, payload, middle, last, full);
        assert(front.push(last) =~= strings);
    }
}

/// Decoding a payload in the short layout gives back the arguments that it was made of.
pub proof fn short_decode_inverts_encode(order: ByteOrder, inject: bool, argv: Seq<Seq<u8>>)
    requires
        1 <= argv.len() <= MAX_SHORT_ARGUMENTS,
        are_texts(argv),
    ensures
        spawn_parse(order, short_bytes(order, inject, argv)) == Ok::<SpawnModel, Seq<char>>(
            SpawnModel { inject, argv, environment: None, cwd: None, size: default_size() },
        ),
{
    let payload = short_bytes(order, inject, argv);
    let flag: u32 = if inject { 1 } else { 0 };
    let count = argv.len() as u32;
    let list = list_bytes(order, argv);
    wire::u32_round_trip(order, flag);
    wire::u32_round_trip(order, count);
    assert(payload.subrange(0, 4) =~= wire::u32_bytes(order, flag));
    assert(payload.subrange(4, 8) =~= wire::u32_bytes(order, count));
    wire::u32_at_offset(order, payload, 0, wire::u32_bytes(order, flag));
    wire::u32_at_offset(order, payload, 4, wire::u32_bytes(order, count));
    assert(payload.subrange(8, 8int + list.len()) =~= list);
    parse_list_inverts(order, payload, 8, argv, false);
}

/// Every field of the fixed part stands at its place.
proof fn full_header_layout(order: ByteOrder, model: SpawnModel, payload: Seq<u8>)
    requires
        payload.len() >= FULL_HEADER,
        payload.take(FULL_HEADER as int) == full_header(order, model),
    ensures
        wire::u32_at(order, payload, 0) == if model.inject { 1u32 } else { 0u32 },
        wire::u32_at(order, payload, 4) == SPAWN_V2,
        wire::u32_at(order, payload, 8) == model.argv.len() as u32,
        wire::u32_at(order, payload, 12) == match model.environment {
            Some(entries) => entries.len() as u32,
            None => u32::MAX,
        },
        wire::u32_at(order, payload, 16) == model.size.ws_row as u32,
        wire::u32_at(order, payload, 20) == model.size.ws_col as u32,
        wire::u32_at(order, payload, 24) == model.size.ws_xpixel as u32,
        wire::u32_at(order, payload, 28) == model.size.ws_ypixel as u32,
        wire::u32_at(order, payload, 32) == cwd_bytes(model.cwd).len() as u32,
{
    let header = full_header(order, model);
    let inject: u32 = if model.inject { 1 } else { 0 };
    let argc = model.argv.len() as u32;
    let entries: u32 = match model.environment {
        Some(entries) => entries.len() as u32,
        None => u32::MAX,
    };
    let cwd = cwd_bytes(model.cwd).len() as u32;
    field_in_header(order, payload, header, 0, inject);
    field_in_header(order, payload, header, 4, SPAWN_V2);
    field_in_header(order, payload, header, 8, argc);
    field_in_header(order, payload, header, 12, entries);
    field_in_header(order, payload, header, 16, model.size.ws_row as u32);
    field_in_header(order, payload, header, 20, model.size.ws_col as u32);
    field_in_header(order, payload, header, 24, model.size.ws_xpixel as u32);
    field_in_header(order, payload, header, 28, model.size.ws_ypixel as u32);
    field_in_header(order, payload, header, 32, cwd);
}

/// One field of a fixed part that begins a payload.
proof fn field_in_header(
    order: ByteOrder,
    payload: Seq<u8>,
    header: Seq<u8>,
    at: int,
    value: u32,
)
    requires
        0 <= at,
        at + 4 <= header.len() <= payload.len(),
        payload.take(header.len() as int) == header,
        header.subrange(at, at + 4) =~= wire::u32_bytes(order, value),
    ensures
        wire::u32_at(order, payload, at) == value,
{
    wire::u32_round_trip(order, value);
    assert(payload.subrange(at, at + 4) =~= header.subrange(at, at + 4));
    wire::u32_at_offset(order, payload, at, wire::u32_bytes(order, value));
}

/// Where the four parts of a concatenation stand.
proof fn four_parts(a: Seq<u8>, b: Seq<u8>, c: Seq<u8>, d: Seq<u8>)
    ensures
        (a + b + c + d).len() == a.len() + b.len() + c.len() + d.len(),
        (a + b + c + d).take(a.len() as int) == a,
        (a + b + c + d).subrange(a.len() as int, (a.len() + b.len()) as int) == b,
        (a + b + c + d).subrange(
            (a.len() + b.len()) as int,
            (a.len() + b.len() + c.len()) as int,
        ) == c,
        (a + b + c + d).subrange(
            (a.len() + b.len() + c.len()) as int,
            (a.len() + b.len() + c.len() + d.len()) as int,
        ) == d,
{
    let whole = a + b + c + d;
    assert(whole.take(a.len() as int) =~= a);
    assert(whole.subrange(a.len() as int, (a.len() + b.len()) as int) =~= b);
}

/// The parts behind the fixed part are read back.
proof fn parts_decode(order: ByteOrder, model: SpawnModel, payload: Seq<u8>, at: int)
    requires
        is_request(model),
        0 <= at,
        at + list_bytes(order, model.argv).len() + environment_bytes(
            order,
            model.environment,
        ).len() + cwd_bytes(model.cwd).len() == payload.len(),
        payload.subrange(at, at + list_bytes(order, model.argv).len()) == list_bytes(
            order,
            model.argv,
        ),
        ({
            let second = at + list_bytes(order, model.argv).len();
            let third = second + environment_bytes(order, model.environment).len();
            &&& payload.subrange(second, third) == environment_bytes(order, model.environment)
            &&& payload.subrange(third, payload.len() as int) == cwd_bytes(model.cwd)
        }),
        wire::u32_at(order, payload, 12) == match model.environment {
            Some(entries) => entries.len() as u32,
            None => u32::MAX,
        },
        wire::u32_at(order, payload, 32) == cwd_bytes(model.cwd).len() as u32,
    ensures
        ({
            let second = at + list_bytes(order, model.argv).len();
            let third = second + environment_bytes(order, model.environment).len();
            &&& parse_list(order, payload, at, model.argv.len(), true) == Ok::<
                (Seq<Seq<u8>>, int),
                Seq<char>,
            >((model.argv, second))
            &&& parse_environment(order, payload, second) == Ok::<
                (Option<Seq<Seq<u8>>>, int),
                Seq<char>,
            >((model.environment, third))
            &&& parse_cwd(order, payload, third) == Ok::<(Option<Seq<u8>>, int), Seq<char>>(
                (model.cwd, payload.len() as int),
            )
        }),
{
    let second = at + list_bytes(order, model.argv).len();
    parse_list_inverts(order, payload, at, model.argv, true);
    if let Some(entries) = model.environment {
        parse_list_inverts(order, payload, second, entries, true);
    }
}

/// Decoding a payload in the full layout gives back the request that it was made of.
pub proof fn full_decode_inverts_encode(order: ByteOrder, model: SpawnModel)
    requires
        is_request(model),
    ensures
        spawn_parse(order, full_bytes(order, model)) == Ok::<SpawnModel, Seq<char>>(model),
{
    let payload = full_bytes(order, model);
    full_header_length(order, model);
    four_parts(
        full_header(order, model),
        list_bytes(order, model.argv),
        environment_bytes(order, model.environment),
        cwd_bytes(model.cwd),
    );
    full_header_layout(order, model, payload);
    parts_decode(order, model, payload, FULL_HEADER as int);
    assert(parse_size(order, payload) == Ok::<WindowSize, Seq<char>>(model.size));
}

/// The fixed part has its length.
proof fn full_header_length(order: ByteOrder, model: SpawnModel)
    ensures
        full_header(order, model).len() == FULL_HEADER,
{
    assert(forall|value: u32| #[trigger] wire::u32_bytes(order, value).len() == 4);
}

/// Decodes whatever bytes come, and forgets the result: no payload stops the decoder.
pub fn fuzz_spawn_payload(payload: &[u8]) {
    let _result = decode_spawn(payload);
}

} // verus!

//! The options of a session, as its users build them.
use crate::error::{InvalidSize, SpawnError};
use crate::spawn::{self, BrokerSpawn, NativeUnit};
use vstd::prelude::*;

verus! {

pub const DEFAULT_INPUT_CAPACITY: usize = 1_048_576;

pub const DEFAULT_OUTPUT_CAPACITY: usize = 262_144;

/// In nanoseconds.
pub const DEFAULT_GRACEFUL_CLOSE_TIMEOUT: u128 = 250_000_000;

/// The most rows or columns that a terminal can have on every platform.
pub const MAX_CELL_DIMENSION: u16 = 32767;

pub const MAX_CAPACITY: usize = 67_108_864;

/// The cell and optional pixel dimensions of a pseudo terminal.
///
/// Rows and columns are from 1 to `MAX_CELL_DIMENSION` on every platform, so that a size
/// means the same on each. Every constructor keeps to that; `wf` states it.
#[derive(Clone, Copy, Debug, PartialEq, Eq, Structural)]
pub struct Size {
    pub rows: u16,
    pub columns: u16,
    pub pixel_width: u16,
    pub pixel_height: u16,
}

/// Whether a terminal can have these cells on every platform.
pub open spec fn cells_ok(rows: u16, columns: u16) -> bool {
    1 <= rows <= MAX_CELL_DIMENSION && 1 <= columns <= MAX_CELL_DIMENSION
}

/// Whether the engine's dimensions are a size.
pub open spec fn native_ok(size: [u32; 4]) -> bool {
    &&& 1 <= size[0] <= MAX_CELL_DIMENSION
    &&& 1 <= size[1] <= MAX_CELL_DIMENSION
    &&& size[2] <= u16::MAX
    &&& size[3] <= u16::MAX
}

impl Size {
    /// The cells are within the bounds.
    pub open spec fn wf(&self) -> bool {
        cells_ok(self.rows, self.columns)
    }

    /// A size without pixel dimensions.
    pub fn new(rows: u16, columns: u16) -> (size: Self)
        requires
            cells_ok(rows, columns),
        ensures
            size.wf(),
            size == (Size { rows, columns, pixel_width: 0, pixel_height: 0 }),
    {
        Size { rows, columns, pixel_width: 0, pixel_height: 0 }
    }

    /// A size without pixel dimensions, where the cells are within the bounds.
    pub fn try_new(rows: u16, columns: u16) -> (result: Result<Self, InvalidSize>)
        ensures
            result == if cells_ok(rows, columns) {
                Ok::<Size, InvalidSize>(Size { rows, columns, pixel_width: 0, pixel_height: 0 })
            } else {
                Err(InvalidSize)
            },
            result matches Ok(size) ==> size.wf(),
    {
        if rows == 0 || columns == 0 || rows > MAX_CELL_DIMENSION || columns > MAX_CELL_DIMENSION {
            return Err(InvalidSize);
        }
        Ok(Size::new(rows, columns))
    }

    /// The size with pixel dimensions.
    pub fn with_pixels(self, width: u16, height: u16) -> (size: Self)
        ensures
            size == (Size { pixel_width: width, pixel_height: height, ..self }),
            self.wf() ==> size.wf(),
    {
        Size {
            rows: self.rows,
            columns: self.columns,
            pixel_width: width,
            pixel_height: height,
        }
    }

    /// The number of rows.
    pub fn rows(self) -> (rows: u16)
        ensures
            rows == self.rows,
    {
        self.rows
    }

    /// The number of columns.
    pub fn columns(self) -> (columns: u16)
        ensures
            columns == self.columns,
    {
        self.columns
    }

    /// The width in pixels, or zero.
    pub fn pixel_width(self) -> (width: u16)
        ensures
            width == self.pixel_width,
    {
        self.pixel_width
    }

    /// The height in pixels, or zero.
    pub fn pixel_height(self) -> (height: u16)
        ensures
            height == self.pixel_height,
    {
        self.pixel_height
    }

    /// The dimensions as the engine takes them.
    pub fn native(self) -> (size: [u32; 4])
        ensures
            size@ == seq![
                self.rows as u32,
                self.columns as u32,
                self.pixel_width as u32,
                self.pixel_height as u32,
            ],
            self.wf() ==> native_ok(size),
    {
        let size: [u32; 4] = [
            self.rows as u32,
            self.columns as u32,
            self.pixel_width as u32,
            self.pixel_height as u32,
        ];
        assert(size@ =~= seq![
            self.rows as u32,
            self.columns as u32,
            self.pixel_width as u32,
            self.pixel_height as u32,
        ]);
        proof {
            if self.wf() {
                native_round_trip(self, size);
            }
        }
        size
    }

    /// The size with the engine's dimensions, where they are within the bounds of one.
    pub fn from_native(size: [u32; 4]) -> (result: Option<Size>)
        ensures
            result == if native_ok(size) {
                Some(
                    Size {
                        rows: size[0] as u16,
                        columns: size[1] as u16,
                        pixel_width: size[2] as u16,
                        pixel_height: size[3] as u16,
                    },
                )
            } else {
                None
            },
            result matches Some(size) ==> size.wf(),
    {
        let cells: u32 = MAX_CELL_DIMENSION as u32;
        let pixels: u32 = u16::MAX as u32;
        if size[0] == 0 || size[0] > cells || size[1] == 0 || size[1] > cells || size[2] > pixels
            || size[3] > pixels {
            return None;
        }
        Some(
            Size {
                rows: size[0] as u16,
                columns: size[1] as u16,
                pixel_width: size[2] as u16,
                pixel_height: size[3] as u16,
            },
        )
    }
}

/// A size goes to the engine and comes back: its dimensions there are those of a size, and
/// that size is the same.
pub proof fn native_round_trip(size: Size, native: [u32; 4])
    requires
        size.wf(),
        native@ == seq![
            size.rows as u32,
            size.columns as u32,
            size.pixel_width as u32,
            size.pixel_height as u32,
        ],
    ensures
        native_ok(native),
        size == (Size {
            rows: native[0] as u16,
            columns: native[1] as u16,
            pixel_width: native[2] as u16,
            pixel_height: native[3] as u16,
        }),
{
    assert(native[0] == native@[0] && native[1] == native@[1]);
    assert(native[2] == native@[2] && native[3] == native@[3]);
}

/// The configuration of a child.
#[derive(Debug)]
pub struct SpawnOptions<U> {
    pub executable: Vec<U>,
    pub arguments: Vec<Vec<U>>,
    pub environment: Option<Vec<(Vec<U>, Vec<U>)>>,
    pub cwd: Option<Vec<U>>,
    pub initial_size: Size,
    pub input_capacity: usize,
    pub output_capacity: usize,
    /// In nanoseconds.
    pub graceful_close_timeout: u128,
}

impl<U: NativeUnit> SpawnOptions<U> {
    /// The options of an executable, without a shell.
    pub fn new(executable: Vec<U>) -> (options: Self)
        ensures
            options.executable == executable,
            options.arguments@ == Seq::<Vec<U>>::empty(),
            options.environment is None,
            options.cwd is None,
            options.initial_size == (Size {
                rows: 24,
                columns: 80,
                pixel_width: 0,
                pixel_height: 0,
            }),
            options.input_capacity == DEFAULT_INPUT_CAPACITY,
            options.output_capacity == DEFAULT_OUTPUT_CAPACITY,
            options.graceful_close_timeout == DEFAULT_GRACEFUL_CLOSE_TIMEOUT,
    {
        SpawnOptions {
            executable,
            arguments: Vec::new(),
            environment: None,
            cwd: None,
            initial_size: Size::new(24, 80),
            input_capacity: DEFAULT_INPUT_CAPACITY,
            output_capacity: DEFAULT_OUTPUT_CAPACITY,
            graceful_close_timeout: DEFAULT_GRACEFUL_CLOSE_TIMEOUT,
        }
    }

    /// The options with one argument more.
    pub fn argument(self, argument: Vec<U>) -> (options: Self)
        ensures
            options.arguments@ == self.arguments@.push(argument),
            options == (SpawnOptions { arguments: options.arguments, ..self }),
    {
        let mut options = self;
        options.arguments.push(argument);
        options
    }

    /// The options with these arguments.
    pub fn with_arguments(self, arguments: Vec<Vec<U>>) -> (options: Self)
        ensures
            options == (SpawnOptions { arguments, ..self }),
    {
        let mut options = self;
        options.arguments = arguments;
        options
    }

    /// The options with this environment in place of the inherited one.
    pub fn environment(self, environment: Vec<(Vec<U>, Vec<U>)>) -> (options: Self)
        ensures
            options == (SpawnOptions { environment: Some(environment), ..self }),
    {
        let mut options = self;
        options.environment = Some(environment);
        options
    }

    /// The options with an empty environment.
    pub fn clear_environment(self) -> (options: Self)
        ensures
            options.environment matches Some(entries) && entries@.len() == 0,
            options == (SpawnOptions { environment: options.environment, ..self }),
    {
        let mut options = self;
        options.environment = Some(Vec::new());
        options
    }

    /// The options with this working directory.
    pub fn current_dir(self, directory: Vec<U>) -> (options: Self)
        ensures
            options == (SpawnOptions { cwd: Some(directory), ..self }),
    {
        let mut options = self;
        options.cwd = Some(directory);
        options
    }

    /// The options with this initial size.
    pub fn size(self, size: Size) -> (options: Self)
        ensures
            options == (SpawnOptions { initial_size: size, ..self }),
    {
        let mut options = self;
        options.initial_size = size;
        options
    }

    /// The options with this bound on accepted input.
    pub fn input_capacity(self, bytes: usize) -> (options: Self)
        ensures
            options == (SpawnOptions { input_capacity: bytes, ..self }),
    {
        let mut options = self;
        options.input_capacity = bytes;
        options
    }

    /// The options with this bound on retained output.
    pub fn output_capacity(self, bytes: usize) -> (options: Self)
        ensures
            options == (SpawnOptions { output_capacity: bytes, ..self }),
    {
        let mut options = self;
        options.output_capacity = bytes;
        options
    }

    /// The options with this time before a close is forced.
    pub fn graceful_close_timeout(self, timeout: u128) -> (options: Self)
        ensures
            options == (SpawnOptions { graceful_close_timeout: timeout, ..self }),
    {
        let mut options = self;
        options.graceful_close_timeout = timeout;
        options
    }

    /// The executable.
    pub fn executable(&self) -> (executable: &Vec<U>)
        ensures
            *executable == self.executable,
    {
        &self.executable
    }

    /// The arguments behind the executable.
    pub fn arguments(&self) -> (arguments: &Vec<Vec<U>>)
        ensures
            *arguments == self.arguments,
    {
        &self.arguments
    }

    /// The environment, unless it is inherited.
    pub fn environment_ref(&self) -> (environment: Option<&Vec<(Vec<U>, Vec<U>)>>)
        ensures
            match environment {
                Some(entries) => self.environment == Some(*entries),
                None => self.environment is None,
            },
    {
        self.environment.as_ref()
    }

    /// The working directory, unless it is the default one.
    pub fn current_directory(&self) -> (directory: Option<&Vec<U>>)
        ensures
            match directory {
                Some(path) => self.cwd == Some(*path),
                None => self.cwd is None,
            },
    {
        self.cwd.as_ref()
    }

    /// The initial size.
    pub fn initial_size(&self) -> (size: Size)
        ensures
            size == self.initial_size,
    {
        self.initial_size
    }
}

/// What is wrong with an environment: the first entry that has an empty key, a key with a
/// separator, or a value with a NUL.
pub open spec fn environment_rejection<U: NativeUnit>(entries: Seq<(Vec<U>, Vec<U>)>) -> Option<
    SpawnError,
>
    decreases entries.len(),
{
    if entries.len() == 0 {
        None
    } else {
        match environment_rejection(entries.drop_last()) {
            Some(error) => Some(error),
            None => entry_rejection(entries.last()),
        }
    }
}

/// What is wrong with an environment entry.
pub open spec fn entry_rejection<U: NativeUnit>(entry: (Vec<U>, Vec<U>)) -> Option<SpawnError> {
    if entry.0@.len() == 0 || spawn::has_unit(entry.0@, 61) {
        Some(SpawnError::InvalidEnvironmentKey)
    } else if spawn::has_unit(entry.1@, 0) {
        Some(SpawnError::ContainsNul { field: "environment" })
    } else {
        None
    }
}

/// Whether an argument holds a NUL.
pub open spec fn argument_with_nul<U: NativeUnit>(arguments: Seq<Vec<U>>) -> bool {
    exists|i: int| 0 <= i < arguments.len() && spawn::has_unit((#[trigger] arguments[i])@, 0)
}

/// What is wrong with options.
pub open spec fn options_rejection<U: NativeUnit>(options: SpawnOptions<U>) -> Option<SpawnError> {
    if !(1 <= options.input_capacity <= MAX_CAPACITY) {
        Some(SpawnError::InvalidCapacity { field: "input", bytes: options.input_capacity })
    } else if !(1 <= options.output_capacity <= MAX_CAPACITY) {
        Some(SpawnError::InvalidCapacity { field: "output", bytes: options.output_capacity })
    } else if options.graceful_close_timeout > spawn::MAX_CLOSE_TIMEOUT {
        Some(SpawnError::InvalidCloseTimeout)
    } else if options.executable@.len() == 0 {
        Some(SpawnError::EmptyExecutable)
    } else if spawn::has_unit(options.executable@, 0) {
        Some(SpawnError::ContainsNul { field: "executable" })
    } else if argument_with_nul(options.arguments@) {
        Some(SpawnError::ContainsNul { field: "argument" })
    } else if options.environment is Some && environment_rejection(
        options.environment.unwrap()@,
    ) is Some {
        environment_rejection(options.environment.unwrap()@)
    } else if options.cwd is Some && spawn::has_unit(options.cwd.unwrap()@, 0) {
        Some(SpawnError::ContainsNul { field: "working directory" })
    } else {
        None
    }
}

/// Whether a capacity is within its bounds.
pub fn validate_capacity(field: &'static str, bytes: usize) -> (result: Result<(), SpawnError>)
    ensures
        result == if 1 <= bytes <= MAX_CAPACITY {
            Ok::<(), SpawnError>(())
        } else {
            Err(SpawnError::InvalidCapacity { field, bytes })
        },
{
    if bytes >= 1 && bytes <= MAX_CAPACITY {
        Ok(())
    } else {
        Err(SpawnError::InvalidCapacity { field, bytes })
    }
}

/// Checks a string that goes to the platform.
pub fn validate_native_string<U: NativeUnit>(value: &Vec<U>, field: &'static str) -> (result: Result<
    (),
    SpawnError,
>)
    ensures
        result == if spawn::has_unit(value@, 0) {
            Err::<(), SpawnError>(SpawnError::ContainsNul { field })
        } else {
            Ok(())
        },
{
    if spawn::contains_unit(value, 0) {
        Err(SpawnError::ContainsNul { field })
    } else {
        Ok(())
    }
}

/// Checks the key of an environment entry.
pub fn validate_environment_key<U: NativeUnit>(key: &Vec<U>) -> (result: Result<(), SpawnError>)
    ensures
        result == if key@.len() == 0 || spawn::has_unit(key@, 61) {
            Err::<(), SpawnError>(SpawnError::InvalidEnvironmentKey)
        } else {
            Ok(())
        },
{
    if key.len() == 0 || spawn::contains_unit(key, 61) {
        Err(SpawnError::InvalidEnvironmentKey)
    } else {
        Ok(())
    }
}

/// Checks the strings of options.
fn validate_strings<U: NativeUnit>(options: &SpawnOptions<U>) -> (result: Result<(), SpawnError>)
    requires
        1 <= options.input_capacity <= MAX_CAPACITY,
        1 <= options.output_capacity <= MAX_CAPACITY,
        options.graceful_close_timeout <= spawn::MAX_CLOSE_TIMEOUT,
    ensures
        match result {
            Ok(()) => options_rejection(*options) is None,
            Err(error) => options_rejection(*options) == Some(error),
        },
{
    if options.executable.len() == 0 {
        return Err(SpawnError::EmptyExecutable);
    }
    match validate_native_string(&options.executable, "executable") {
        Ok(()) => {},
        Err(error) => {
            return Err(error);
        },
    }
    for index in 0..options.arguments.len()
        invariant
            1 <= options.input_capacity <= MAX_CAPACITY,
            1 <= options.output_capacity <= MAX_CAPACITY,
            options.graceful_close_timeout <= spawn::MAX_CLOSE_TIMEOUT,
            options.executable@.len() != 0,
            !spawn::has_unit(options.executable@, 0),
            forall|i: int|
                0 <= i < index ==> !spawn::has_unit((#[trigger] options.arguments@[i])@, 0),
    {
        match validate_native_string(&options.arguments[index], "argument") {
            Ok(()) => {},
            Err(error) => {
                assert(spawn::has_unit(options.arguments@[index as int]@, 0));
                return Err(error);
            },
        }
    }
    assert(!argument_with_nul(options.arguments@));
    if let Some(entries) = &options.environment {
        for index in 0..entries.len()
            invariant
                1 <= options.input_capacity <= MAX_CAPACITY,
                1 <= options.output_capacity <= MAX_CAPACITY,
                options.graceful_close_timeout <= spawn::MAX_CLOSE_TIMEOUT,
                options.executable@.len() != 0,
                !spawn::has_unit(options.executable@, 0),
                !argument_with_nul(options.arguments@),
                options.environment == Some(*entries),
                environment_rejection(entries@.take(index as int)) is None,
        {
            proof {
                let taken = entries@.take(index + 1);
                assert(taken.drop_last() =~= entries@.take(index as int));
                assert(taken.last() == entries@[index as int]);
            }
            let checked = match validate_environment_key(&entries[index].0) {
                Ok(()) => validate_native_string(&entries[index].1, "environment"),
                Err(error) => Err(error),
            };
            match checked {
                Ok(()) => {},
                Err(error) => {
                    proof {
                        environment_rejection_stays(entries@, index + 1);
                    }
                    return Err(error);
                },
            }
        }
        assert(entries@.take(entries@.len() as int) =~= entries@);
    }
    if let Some(cwd) = &options.cwd {
        match validate_native_string(cwd, "working directory") {
            Ok(()) => {},
            Err(error) => {
                return Err(error);
            },
        }
    }
    Ok(())
}

/// What is wrong with the front of an environment is what is wrong with all of it.
proof fn environment_rejection_stays<U: NativeUnit>(entries: Seq<(Vec<U>, Vec<U>)>, count: int)
    requires
        0 <= count <= entries.len(),
        environment_rejection(entries.take(count)) is Some,
    ensures
        environment_rejection(entries) == environment_rejection(entries.take(count)),
    decreases entries.len(),
{
    if count == entries.len() {
        assert(entries.take(count) =~= entries);
    } else {
        assert(entries.drop_last().take(count) =~= entries.take(count));
        environment_rejection_stays(entries.drop_last(), count);
    }
}

/// The configuration that options stand for, with the capacities of the input and the
/// output.
pub fn native_spawn_options<U: NativeUnit>(options: SpawnOptions<U>) -> (result: Result<
    (BrokerSpawn<U>, usize, usize),
    SpawnError,
>)
    ensures
        match result {
            Ok((config, input_capacity, output_capacity)) => {
                &&& options_rejection(options) is None
                &&& config == (BrokerSpawn {
                    executable: options.executable,
                    arguments: options.arguments,
                    environment: options.environment,
                    cwd: options.cwd,
                    rows: options.initial_size.rows as u32,
                    columns: options.initial_size.columns as u32,
                    pixel_width: options.initial_size.pixel_width as u32,
                    pixel_height: options.initial_size.pixel_height as u32,
                    graceful_close_timeout: options.graceful_close_timeout,
                })
                &&& input_capacity == options.input_capacity
                &&& output_capacity == options.output_capacity
            },
            Err(error) => options_rejection(options) == Some(error),
        },
{
    match validate_capacity("input", options.input_capacity) {
        Ok(()) => {},
        Err(error) => {
            return Err(error);
        },
    }
    match validate_capacity("output", options.output_capacity) {
        Ok(()) => {},
        Err(error) => {
            return Err(error);
        },
    }
    if options.graceful_close_timeout > spawn::MAX_CLOSE_TIMEOUT {
        return Err(SpawnError::InvalidCloseTimeout);
    }
    match validate_strings(&options) {
        Ok(()) => {},
        Err(error) => {
            return Err(error);
        },
    }
    let size: Size = options.initial_size;
    let config = BrokerSpawn {
        executable: options.executable,
        arguments: options.arguments,
        environment: options.environment,
        cwd: options.cwd,
        rows: size.rows as u32,
        columns: size.columns as u32,
        pixel_width: size.pixel_width as u32,
        pixel_height: size.pixel_height as u32,
        graceful_close_timeout: options.graceful_close_timeout,
    };
    Ok((config, options.input_capacity, options.output_capacity))
}

/// An environment whose entries are in order is accepted.
proof fn good_environment_is_accepted<U: NativeUnit>(entries: Seq<(Vec<U>, Vec<U>)>)
    requires
        forall|i: int| #![trigger entries[i]]
            0 <= i < entries.len() ==> {
                &&& entries[i].0@.len() > 0
                &&& forall|k: int|
                    0 <= k < entries[i].0@.len() ==> (#[trigger] entries[i].0@[k]).code() != 61
                &&& forall|k: int|
                    0 <= k < entries[i].1@.len() ==> (#[trigger] entries[i].1@[k]).code() != 0
            },
    ensures
        environment_rejection(entries) is None,
    decreases entries.len(),
{
    if entries.len() > 0 {
        let shorter = entries.drop_last();
        assert forall|i: int| #![trigger shorter[i]] 0 <= i < shorter.len() implies {
            &&& shorter[i].0@.len() > 0
            &&& forall|k: int|
                0 <= k < shorter[i].0@.len() ==> (#[trigger] shorter[i].0@[k]).code() != 61
            &&& forall|k: int|
                0 <= k < shorter[i].1@.len() ==> (#[trigger] shorter[i].1@[k]).code() != 0
        } by {
            assert(shorter[i] == entries[i]);
        }
        good_environment_is_accepted(shorter);
        assert(entries.last() == entries[entries.len() - 1]);
    }
}

/// An environment that is accepted has no entry out of order, and one that is refused has one
/// that the error speaks of.
proof fn environment_verdict_is_right<U: NativeUnit>(entries: Seq<(Vec<U>, Vec<U>)>)
    ensures
        match environment_rejection(entries) {
            None => forall|i: int| #![trigger entries[i]]
                0 <= i < entries.len() ==> {
                    &&& entries[i].0@.len() > 0
                    &&& forall|k: int|
                        0 <= k < entries[i].0@.len() ==> (#[trigger] entries[i].0@[k]).code() != 61
                    &&& forall|k: int|
                        0 <= k < entries[i].1@.len() ==> (#[trigger] entries[i].1@[k]).code() != 0
                },
            Some(error) => exists|i: int| #![trigger entries[i]]
                0 <= i < entries.len() && match error {
                    SpawnError::InvalidEnvironmentKey => entries[i].0@.len() == 0 || exists|k: int|
                        0 <= k < entries[i].0@.len() && (#[trigger] entries[i].0@[k]).code() == 61,
                    SpawnError::ContainsNul { field } => field == "environment" && exists|k: int|
                        0 <= k < entries[i].1@.len() && (#[trigger] entries[i].1@[k]).code() == 0,
                    _ => false,
                },
        },
    decreases entries.len(),
{
    if entries.len() > 0 {
        let shorter = entries.drop_last();
        environment_verdict_is_right(shorter);
        match environment_rejection(shorter) {
            None => {
                match environment_rejection(entries) {
                    None => {
                        assert forall|i: int| #![trigger entries[i]]
                            0 <= i < entries.len() implies {
                            &&& entries[i].0@.len() > 0
                            &&& forall|k: int|
                                0 <= k < entries[i].0@.len() ==> (
                                #[trigger] entries[i].0@[k]).code() != 61
                            &&& forall|k: int|
                                0 <= k < entries[i].1@.len() ==> (
                                #[trigger] entries[i].1@[k]).code() != 0
                        } by {
                            if i < shorter.len() {
                                assert(shorter[i] == entries[i]);
                            } else {
                                assert(entries.last() == entries[i]);
                            }
                        }
                    },
                    Some(_) => {
                        assert(entries.last() == entries[entries.len() - 1]);
                    },
                }
            },
            Some(error) => {
                let i = choose|i: int| #![trigger shorter[i]]
                    0 <= i < shorter.len() && match error {
                        SpawnError::InvalidEnvironmentKey => shorter[i].0@.len() == 0
                            || exists|k: int|
                            0 <= k < shorter[i].0@.len() && (#[trigger] shorter[i].0@[k]).code()
                                == 61,
                        SpawnError::ContainsNul { field } => field == "environment"
                            && exists|k: int|
                            0 <= k < shorter[i].1@.len() && (#[trigger] shorter[i].1@[k]).code()
                                == 0,
                        _ => false,
                    };
                assert(shorter[i] == entries[i]);
            },
        }
    }
}

/// Options that break no rule are accepted, whatever else their texts hold: capacities from
/// one byte to 64 MiB, a timeout of at most a minute, an executable, no NUL in the executable,
/// an argument, a value or the directory, and keys that are not empty and hold no `=`. What is
/// accepted goes into the configuration as it is.
pub proof fn valid_options_are_accepted<U: NativeUnit>(
    options: SpawnOptions<U>,
    result: Result<(BrokerSpawn<U>, usize, usize), SpawnError>,
)
    requires
        call_ensures(native_spawn_options::<U>, (options,), result),
        1 <= options.input_capacity <= 67_108_864,
        1 <= options.output_capacity <= 67_108_864,
        options.graceful_close_timeout <= 60_000_000_000,
        options.executable@.len() > 0,
        forall|k: int|
            0 <= k < options.executable@.len() ==> (#[trigger] options.executable@[k]).code() != 0,
        forall|i: int, k: int|
            0 <= i < options.arguments@.len() && 0 <= k < options.arguments@[i]@.len() ==> (
            #[trigger] options.arguments@[i]@[k]).code() != 0,
        options.environment matches Some(entries) ==> forall|i: int| #![trigger entries@[i]]
            0 <= i < entries@.len() ==> {
                &&& entries@[i].0@.len() > 0
                &&& forall|k: int|
                    0 <= k < entries@[i].0@.len() ==> (#[trigger] entries@[i].0@[k]).code() != 61
                &&& forall|k: int|
                    0 <= k < entries@[i].1@.len() ==> (#[trigger] entries@[i].1@[k]).code() != 0
            },
        options.cwd matches Some(path) ==> forall|k: int|
            0 <= k < path@.len() ==> (#[trigger] path@[k]).code() != 0,
    ensures
        result matches Ok((config, input_capacity, output_capacity)) && {
            &&& config.executable == options.executable
            &&& config.arguments == options.arguments
            &&& config.environment == options.environment
            &&& config.cwd == options.cwd
            &&& config.rows == options.initial_size.rows
            &&& config.columns == options.initial_size.columns
            &&& config.pixel_width == options.initial_size.pixel_width
            &&& config.pixel_height == options.initial_size.pixel_height
            &&& config.graceful_close_timeout == options.graceful_close_timeout
            &&& input_capacity == options.input_capacity
            &&& output_capacity == options.output_capacity
        },
{
    if let Some(entries) = options.environment {
        good_environment_is_accepted(entries@);
    }
    assert forall|i: int| 0 <= i < options.arguments@.len() implies !spawn::has_unit(
        (#[trigger] options.arguments@[i])@,
        0,
    ) by {
        if spawn::has_unit(options.arguments@[i]@, 0) {
            let k = choose|k: int|
                0 <= k < options.arguments@[i]@.len() && (
                #[trigger] options.arguments@[i]@[k]).code() == 0;
            assert(options.arguments@[i]@[k].code() != 0);
        }
    }
}

/// Options that are refused break the rule that the error names, and options that are accepted
/// break none.
pub proof fn refused_options_break_a_rule<U: NativeUnit>(
    options: SpawnOptions<U>,
    result: Result<(BrokerSpawn<U>, usize, usize), SpawnError>,
)
    requires
        call_ensures(native_spawn_options::<U>, (options,), result),
    ensures
        match result {
            Ok(_) => {
                &&& 1 <= options.input_capacity <= 67_108_864
                &&& 1 <= options.output_capacity <= 67_108_864
                &&& options.graceful_close_timeout <= 60_000_000_000
                &&& options.executable@.len() > 0
                &&& forall|k: int|
                    0 <= k < options.executable@.len() ==> (
                    #[trigger] options.executable@[k]).code() != 0
                &&& forall|i: int, k: int|
                    0 <= i < options.arguments@.len() && 0 <= k < options.arguments@[i]@.len()
                        ==> (#[trigger] options.arguments@[i]@[k]).code() != 0
                &&& options.environment matches Some(entries) ==> forall|i: int|
                    #![trigger entries@[i]]
                    0 <= i < entries@.len() ==> {
                        &&& entries@[i].0@.len() > 0
                        &&& forall|k: int|
                            0 <= k < entries@[i].0@.len() ==> (
                            #[trigger] entries@[i].0@[k]).code() != 61
                        &&& forall|k: int|
                            0 <= k < entries@[i].1@.len() ==> (
                            #[trigger] entries@[i].1@[k]).code() != 0
                    }
                &&& options.cwd matches Some(path) ==> forall|k: int|
                    0 <= k < path@.len() ==> (#[trigger] path@[k]).code() != 0
            },
            Err(SpawnError::InvalidCapacity { field, bytes }) => {
                &&& bytes == 0 || bytes > 67_108_864
                &&& field == "input" && bytes == options.input_capacity || field == "output"
                    && bytes == options.output_capacity
            },
            Err(SpawnError::InvalidCloseTimeout) => options.graceful_close_timeout
                > 60_000_000_000,
            Err(SpawnError::EmptyExecutable) => options.executable@.len() == 0,
            Err(SpawnError::InvalidEnvironmentKey) => options.environment matches Some(entries)
                && exists|i: int| #![trigger entries@[i]]
                0 <= i < entries@.len() && (entries@[i].0@.len() == 0 || exists|k: int|
                    0 <= k < entries@[i].0@.len() && (#[trigger] entries@[i].0@[k]).code() == 61),
            Err(SpawnError::ContainsNul { field }) => {
                ||| field == "executable" && exists|k: int|
                    0 <= k < options.executable@.len() && (
                    #[trigger] options.executable@[k]).code() == 0
                ||| field == "argument" && exists|i: int, k: int|
                    0 <= i < options.arguments@.len() && 0 <= k < options.arguments@[i]@.len() && (
                    #[trigger] options.arguments@[i]@[k]).code() == 0
                ||| field == "environment" && (options.environment matches Some(entries)
                    && exists|i: int, k: int|
                    0 <= i < entries@.len() && 0 <= k < entries@[i].1@.len() && (
                    #[trigger] entries@[i].1@[k]).code() == 0)
                ||| field == "working directory" && (options.cwd matches Some(path)
                    && exists|k: int|
                    0 <= k < path@.len() && (#[trigger] path@[k]).code() == 0)
            },
            Err(_) => false,
        },
{
    if let Some(entries) = options.environment {
        environment_verdict_is_right(entries@);
    }
    if result is Ok {
        assert forall|i: int, k: int|
            0 <= i < options.arguments@.len() && 0 <= k < options.arguments@[i]@.len() implies (
        #[trigger] options.arguments@[i]@[k]).code() != 0 by {
            assert(!spawn::has_unit(options.arguments@[i]@, 0));
        }
    }
}

/// The setters keep to their own part: whatever is set, everything else stays, and what was
/// set last is what is shown.
pub proof fn setters_keep_to_their_part<U: NativeUnit>(
    options: SpawnOptions<U>,
    argument: Vec<U>,
    directory: Vec<U>,
    entries: Vec<(Vec<U>, Vec<U>)>,
    size: Size,
    longer: SpawnOptions<U>,
    moved: SpawnOptions<U>,
    equipped: SpawnOptions<U>,
    sized: SpawnOptions<U>,
)
    requires
        call_ensures(SpawnOptions::<U>::argument, (options, argument), longer),
        call_ensures(SpawnOptions::<U>::current_dir, (longer, directory), moved),
        call_ensures(SpawnOptions::<U>::environment, (moved, entries), equipped),
        call_ensures(SpawnOptions::<U>::size, (equipped, size), sized),
    ensures
        sized.executable == options.executable,
        sized.arguments@.len() == options.arguments@.len() + 1,
        sized.arguments@.last() == argument,
        sized.arguments@.drop_last() == options.arguments@,
        sized.cwd == Some(directory),
        sized.environment == Some(entries),
        sized.initial_size == size,
        sized.input_capacity == options.input_capacity,
        sized.output_capacity == options.output_capacity,
        sized.graceful_close_timeout == options.graceful_close_timeout,
{
    assert(sized.arguments@.drop_last() =~= options.arguments@);
}

/// New options are acceptable but for their executable: 24 rows and 80 columns, no arguments,
/// an inherited environment, and capacities and a timeout within their bounds.
pub proof fn new_options_are_acceptable<U: NativeUnit>(
    executable: Vec<U>,
    options: SpawnOptions<U>,
    result: Result<(BrokerSpawn<U>, usize, usize), SpawnError>,
)
    requires
        call_ensures(SpawnOptions::<U>::new, (executable,), options),
        call_ensures(native_spawn_options::<U>, (options,), result),
        executable@.len() > 0,
        forall|k: int| 0 <= k < executable@.len() ==> (#[trigger] executable@[k]).code() != 0,
    ensures
        result matches Ok((config, input_capacity, output_capacity)) && config.executable
            == executable && config.arguments@.len() == 0 && config.environment is None
            && config.cwd is None && config.rows == 24 && config.columns == 80 && input_capacity
            == 1_048_576 && output_capacity == 262_144 && config.graceful_close_timeout
            == 250_000_000,
{
    valid_options_are_accepted(options, result);
}

/// A size is made exactly of 1 to 32767 rows and columns, and goes through the engine
/// unchanged.
pub proof fn sizes_are_kept(
    rows: u16,
    columns: u16,
    made: Result<Size, InvalidSize>,
    size: Size,
    native: [u32; 4],
    back: Option<Size>,
)
    requires
        call_ensures(Size::try_new, (rows, columns), made),
        size.wf(),
        call_ensures(Size::native, (size,), native),
        call_ensures(Size::from_native, (native,), back),
    ensures
        made is Ok <==> 1 <= rows <= 32767 && 1 <= columns <= 32767,
        made matches Ok(new) ==> new.rows == rows && new.columns == columns && new.pixel_width == 0
            && new.pixel_height == 0,
        native[0] == size.rows && native[1] == size.columns && native[2] == size.pixel_width
            && native[3] == size.pixel_height,
        back == Some(size),
{
}

} // verus!

//! What a caller can rely on from the options of a spawn to the child: what breaks no rule is
//! accepted, and what was asked for arrives at the broker as it was.
use crate::c_api::BytesView;
use crate::c_spawn::{self, SpawnOptions};
use crate::fault::{ErrorKind, IoError};
use crate::spawn::{self, BrokerSpawn, NativeUnit};
use crate::spawn_payload::{self, SpawnRequest};
use crate::wire::ByteOrder;
use vstd::prelude::*;

verus! {

/// A configuration that breaks no rule is accepted: at most 256 arguments and 4096 entries, a
/// terminal from 1 to 32767 rows and columns, a timeout of at most a minute, an executable,
/// no NUL in any text, keys that are not empty and hold no `=`, and 64 KiB in all.
pub proof fn valid_configuration_is_accepted<U: NativeUnit>(
    config: &BrokerSpawn<U>,
    result: Result<(), IoError>,
)
    requires
        call_ensures(BrokerSpawn::<U>::validate, (config,), result),
        config.arguments@.len() <= 256,
        config.environment matches Some(entries) ==> entries@.len() <= 4096,
        1 <= config.rows <= 32767,
        1 <= config.columns <= 32767,
        config.pixel_width <= 65535,
        config.pixel_height <= 65535,
        config.graceful_close_timeout <= 60_000_000_000,
        config.executable@.len() > 0,
        forall|k: int|
            0 <= k < config.executable@.len() ==> (#[trigger] config.executable@[k]).code() != 0,
        forall|i: int, k: int|
            0 <= i < config.arguments@.len() && 0 <= k < config.arguments@[i]@.len() ==> (
            #[trigger] config.arguments@[i]@[k]).code() != 0,
        config.environment matches Some(entries) ==> forall|i: int| #![trigger entries@[i]]
            0 <= i < entries@.len() ==> {
                &&& entries@[i].0@.len() > 0
                &&& forall|k: int|
                    0 <= k < entries@[i].0@.len() ==> (#[trigger] entries@[i].0@[k]).code() != 61
                        && entries@[i].0@[k].code() != 0
                &&& forall|k: int|
                    0 <= k < entries@[i].1@.len() ==> (#[trigger] entries@[i].1@[k]).code() != 0
            },
        config.cwd matches Some(path) ==> forall|k: int|
            0 <= k < path@.len() ==> (#[trigger] path@[k]).code() != 0,
        config.payload_size() <= 65536,
    ensures
        result is Ok,
{
    assert forall|i: int| 0 <= i < config.arguments@.len() implies !spawn::has_unit(
        (#[trigger] config.arguments@[i])@,
        0,
    ) by {
        if spawn::has_unit(config.arguments@[i]@, 0) {
            let k = choose|k: int|
                0 <= k < config.arguments@[i]@.len() && (
                #[trigger] config.arguments@[i]@[k]).code() == 0;
            assert(config.arguments@[i]@[k].code() != 0);
        }
    }
    assert forall|i: int| 0 <= i < config.entries().len() implies spawn::entry_ok(
        #[trigger] config.entries()[i],
    ) by {
        let entries = config.environment.unwrap();
        assert(config.entries()[i] == entries@[i]);
    }
}

/// A configuration that is accepted breaks none of these rules, and one that is refused is
/// answered as invalid input.
pub proof fn accepted_configuration_breaks_no_rule<U: NativeUnit>(
    config: &BrokerSpawn<U>,
    result: Result<(), IoError>,
)
    requires
        call_ensures(BrokerSpawn::<U>::validate, (config,), result),
    ensures
        result is Ok ==> {
            &&& config.arguments@.len() <= 256
            &&& config.environment matches Some(entries) ==> entries@.len() <= 4096
            &&& 1 <= config.rows <= 32767
            &&& 1 <= config.columns <= 32767
            &&& config.pixel_width <= 65535
            &&& config.pixel_height <= 65535
            &&& config.graceful_close_timeout <= 60_000_000_000
            &&& config.executable@.len() > 0
            &&& forall|k: int|
                0 <= k < config.executable@.len() ==> (#[trigger] config.executable@[k]).code()
                    != 0
            &&& forall|i: int, k: int|
                0 <= i < config.arguments@.len() && 0 <= k < config.arguments@[i]@.len() ==> (
                #[trigger] config.arguments@[i]@[k]).code() != 0
            &&& config.environment matches Some(entries) ==> forall|i: int|
                #![trigger entries@[i]]
                0 <= i < entries@.len() ==> {
                    &&& entries@[i].0@.len() > 0
                    &&& forall|k: int|
                        0 <= k < entries@[i].0@.len() ==> (#[trigger] entries@[i].0@[k]).code()
                            != 61 && entries@[i].0@[k].code() != 0
                    &&& forall|k: int|
                        0 <= k < entries@[i].1@.len() ==> (#[trigger] entries@[i].1@[k]).code()
                            != 0
                }
            &&& config.cwd matches Some(path) ==> forall|k: int|
                0 <= k < path@.len() ==> (#[trigger] path@[k]).code() != 0
            &&& config.payload_size() <= 65536
        },
        result matches Err(error) ==> error.kind == ErrorKind::InvalidInput && error.code is None,
{
    if result is Ok {
        assert forall|i: int, k: int|
            0 <= i < config.arguments@.len() && 0 <= k < config.arguments@[i]@.len() implies (
        #[trigger] config.arguments@[i]@[k]).code() != 0 by {
            assert(!spawn::has_unit(config.arguments@[i]@, 0));
        }
        if let Some(entries) = config.environment {
            assert forall|i: int| #![trigger entries@[i]] 0 <= i < entries@.len() implies {
                &&& entries@[i].0@.len() > 0
                &&& forall|k: int|
                    0 <= k < entries@[i].0@.len() ==> (#[trigger] entries@[i].0@[k]).code() != 61
                        && entries@[i].0@[k].code() != 0
                &&& forall|k: int|
                    0 <= k < entries@[i].1@.len() ==> (#[trigger] entries@[i].1@[k]).code() != 0
            } by {
                assert(spawn::entry_ok(config.entries()[i]));
            }
        }
    }
}

/// What a caller configured is what the broker starts: the executable before the arguments,
/// each entry as key, `=` and value, the directory, and the size of the terminal.
pub proof fn configuration_arrives_at_the_broker(
    config: &BrokerSpawn<u8>,
    order: ByteOrder,
    encoded: Result<Vec<u8>, IoError>,
    payload: &[u8],
    decoded: Result<SpawnRequest, IoError>,
)
    requires
        call_ensures(BrokerSpawn::<u8>::encode, (config, order), encoded),
        encoded is Ok,
        payload@ == encoded->Ok_0@,
        call_ensures(spawn_payload::decode_spawn_in, (payload, order), decoded),
        config.arguments@.len() < 256,
        forall|i: int|
            0 <= i < config.arguments@.len() ==> (#[trigger] config.arguments@[i])@.len() > 0,
        config.cwd matches Some(path) ==> path@.len() > 0,
    ensures
        encoded->Ok_0@.len() <= 65536,
        decoded matches Ok(request) && {
            &&& !request.inject
            &&& request.argv@.len() == config.arguments@.len() + 1
            &&& request.argv@[0]@ == config.executable@
            &&& forall|i: int|
                0 <= i < config.arguments@.len() ==> (#[trigger] request.argv@[i + 1])@
                    == config.arguments@[i]@
            &&& request.environment is Some == config.environment is Some
            &&& config.environment matches Some(entries) ==> (
            request.environment matches Some(texts) && texts@.len() == entries@.len() && forall|
                i: int,
            |
                0 <= i < entries@.len() ==> (#[trigger] texts@[i])@ == entries@[i].0@.push(61)
                    + entries@[i].1@)
            &&& request.cwd is Some == config.cwd is Some
            &&& config.cwd matches Some(path) ==> (request.cwd matches Some(named) && named@
                == path@)
            &&& request.size.ws_row == config.rows
            &&& request.size.ws_col == config.columns
            &&& request.size.ws_xpixel == config.pixel_width
            &&& request.size.ws_ypixel == config.pixel_height
        },
{
    spawn::broker_receives_configuration(*config, order);
    spawn::configuration_fits_a_frame(*config, order);
    let request = decoded->Ok_0;
    assert(request@ == config.request());
    let argv = request@.argv;
    assert(argv.len() == config.arguments@.len() + 1);
    assert(argv[0] == config.executable@);
    assert(request.argv@[0]@ == argv[0]);
    assert forall|i: int| 0 <= i < config.arguments@.len() implies (
    #[trigger] request.argv@[i + 1])@ == config.arguments@[i]@ by {
        assert(request.argv@[i + 1]@ == argv[i + 1]);
    }
    if let Some(entries) = config.environment {
        let texts = request.environment.unwrap();
        let shown = request@.environment.unwrap();
        assert(shown == spawn::entry_texts(entries@));
        assert(shown.len() == entries@.len());
        assert forall|i: int| 0 <= i < entries@.len() implies (#[trigger] texts@[i])@
            == entries@[i].0@.push(61) + entries@[i].1@ by {
            assert(shown[i] == texts@[i]@);
        }
    }
}

/// The options of a C caller are taken as they are: the texts without change, each entry split
/// at its first `=`, no directory where its text is empty, and the timeout in nanoseconds.
pub proof fn c_options_are_taken_as_they_are(
    options: &SpawnOptions,
    result: Result<(BrokerSpawn<u8>, usize, usize), ()>,
)
    requires
        options.readable(),
        call_ensures(c_spawn::spawn_config, (options,), result),
    ensures
        result matches Ok((config, input_capacity, output_capacity)) ==> {
            &&& options.struct_size >= 144
            &&& options.flags == 0 || options.flags == 1
            &&& 1 <= options.input_capacity <= 67_108_864
            &&& 1 <= options.output_capacity <= 67_108_864
            &&& options.graceful_close_timeout_us <= 60_000_000
            &&& options.argument_count <= 256
            &&& options.environment_count <= 4096
            &&& 1 <= options.size.rows <= 32767
            &&& 1 <= options.size.columns <= 32767
            &&& options.size.pixel_width <= 65535
            &&& options.size.pixel_height <= 65535
            &&& options.reserved[0] == 0 && options.reserved[1] == 0 && options.reserved[2] == 0
                && options.reserved[3] == 0
            &&& config.executable@.len() == options.executable.length
            &&& options.executable.data matches Some(data) && config.executable@ == data@.take(
                options.executable.length as int,
            )
            &&& config.executable@.len() > 0
            &&& !config.executable@.contains(0)
            &&& config.arguments@.len() == options.argument_count
            &&& forall|i: int| #![trigger config.arguments@[i]]
                0 <= i < options.argument_count ==> {
                    let view = options.arguments.unwrap()@[i];
                    &&& config.arguments@[i]@.len() == view.length
                    &&& view.length > 0 ==> view.data is Some && config.arguments@[i]@
                        == view.data.unwrap()@.take(view.length as int)
                    &&& !config.arguments@[i]@.contains(0)
                }
            &&& options.flags == 1 <==> config.environment is None
            &&& config.environment matches Some(entries) ==> entries@.len()
                == options.environment_count && forall|i: int| #![trigger entries@[i]]
                0 <= i < entries@.len() ==> entry_is_taken(
                    options.environment.unwrap()@[i],
                    entries@[i],
                )
            &&& config.cwd is None <==> options.working_directory.length == 0
            &&& config.cwd matches Some(path) ==> (
            options.working_directory.data matches Some(data) && path@ == data@.take(
                options.working_directory.length as int,
            ))
            &&& config.rows == options.size.rows && config.columns == options.size.columns
            &&& config.pixel_width == options.size.pixel_width && config.pixel_height
                == options.size.pixel_height
            &&& config.graceful_close_timeout == options.graceful_close_timeout_us * 1000
            &&& input_capacity == options.input_capacity
            &&& output_capacity == options.output_capacity
        },
{
    if let Ok((config, input_capacity, output_capacity)) = result {
        assert forall|i: int| #![trigger config.arguments@[i]]
            0 <= i < options.argument_count implies {
            let view = options.arguments.unwrap()@[i];
            &&& config.arguments@[i]@.len() == view.length
            &&& view.length > 0 ==> view.data is Some && config.arguments@[i]@
                == view.data.unwrap()@.take(view.length as int)
            &&& !config.arguments@[i]@.contains(0)
        } by {
            let view = options.arguments.unwrap()@[i];
            assert(view.text() is Some);
            assert(view.readable());
            assert(options.argument_texts().unwrap()[i] == view.text().unwrap());
            assert(!options.argument_texts().unwrap()[i].contains(0));
        }
        if let Some(entries) = config.environment {
            assert forall|i: int| #![trigger entries@[i]]
                0 <= i < entries@.len() implies entry_is_taken(
                options.environment.unwrap()@[i],
                entries@[i],
            ) by {
                let view = options.environment.unwrap()@[i];
                let text = options.environment_texts().unwrap()[i];
                assert(view.text() is Some);
                assert(text == view.text().unwrap());
                assert(c_spawn::is_split(entries@[i], text));
                assert(c_spawn::is_entry(text));
                assert(text.len() > 0);
                if entries@[i].0@.len() == 0 {
                    assert(text[0] == 61);
                }
            }
        }
    }
}

/// Whether an entry is the text of a view, split at its first `=`, which is not in front.
pub open spec fn entry_is_taken(view: BytesView, entry: (Vec<u8>, Vec<u8>)) -> bool {
    &&& view.data is Some
    &&& view.data.unwrap()@.take(view.length as int) == entry.0@.push(61) + entry.1@
    &&& entry.0@.len() > 0
    &&& !entry.0@.contains(61)
}

/// C options that break no rule are accepted, whatever else their texts hold.
pub proof fn valid_c_options_are_accepted(
    options: &SpawnOptions,
    result: Result<(BrokerSpawn<u8>, usize, usize), ()>,
)
    requires
        options.readable(),
        call_ensures(c_spawn::spawn_config, (options,), result),
        options.struct_size >= 144,
        options.flags == 0 || options.flags == 1 && options.environment_count == 0,
        options.reserved[0] == 0 && options.reserved[1] == 0 && options.reserved[2] == 0
            && options.reserved[3] == 0,
        1 <= options.input_capacity <= 67_108_864,
        1 <= options.output_capacity <= 67_108_864,
        options.graceful_close_timeout_us <= 60_000_000,
        options.argument_count <= 256,
        options.environment_count <= 4096,
        1 <= options.size.rows <= 32767,
        1 <= options.size.columns <= 32767,
        options.size.pixel_width <= 65535,
        options.size.pixel_height <= 65535,
        options.executable.length > 0,
        options.executable.text() matches Some(text) && !text.contains(0),
        options.working_directory.text() matches Some(text) && !text.contains(0),
        options.argument_texts() matches Some(texts) && forall|i: int|
            0 <= i < texts.len() ==> !(#[trigger] texts[i]).contains(0),
        options.environment_texts() matches Some(texts) && forall|i: int| #![trigger texts[i]]
            0 <= i < texts.len() ==> !texts[i].contains(0) && texts[i].len() > 0 && texts[i][0]
                != 61 && exists|k: int| 0 < k < texts[i].len() && #[trigger] texts[i][k] == 61,
        options.executable.length + c_spawn::total(options.argument_texts().unwrap())
            + c_spawn::total(options.environment_texts().unwrap())
            + options.working_directory.length <= 65536,
    ensures
        result is Ok,
{
    let texts = options.environment_texts().unwrap();
    assert forall|i: int| 0 <= i < texts.len() implies c_spawn::is_entry(#[trigger] texts[i]) by {
        let k = choose|k: int| 0 < k < texts[i].len() && #[trigger] texts[i][k] == 61;
        assert(texts[i].contains(61));
    }
    assert(options.working_directory.text().unwrap().len() == options.working_directory.length);
}

} // verus!

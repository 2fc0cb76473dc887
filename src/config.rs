//! The configuration: where measurements go, and the sensors to listen to.
use std::collections::HashMap;
use vstd::prelude::*;

verus! {

/// The settings of a scanning session.
#[derive(Debug)]
pub struct Config {
    pub output: Output,
    /// The sensors to listen to, under names of the configuration's choice.
    pub devices: HashMap<String, Device>,
}

/// Where measurements go.
#[derive(Debug)]
pub struct Output {
    pub url: String,
}

/// A sensor to listen to: its radio address, and the name its measurements
/// are reported under.
#[derive(Debug)]
pub struct Device {
    pub address: String,
    pub name: String,
}

/// Why a sensor's name cannot be used in a report.
#[derive(Debug, Clone, Copy, PartialEq, Eq, Structural)]
pub enum NameError {
    /// The name holds a single or double quote.
    Quote,
    /// The name holds a backslash.
    Backslash,
}

/// Why `name` cannot be used, if it cannot. Quotes are reported before
/// backslashes.
pub open spec fn name_error(name: Seq<char>) -> Option<NameError> {
    if name.contains('"') || name.contains('\'') {
        Some(NameError::Quote)
    } else if name.contains('\\') {
        Some(NameError::Backslash)
    } else {
        None
    }
}

/// `s` with a backslash put before each space.
pub open spec fn escape_spaces(s: Seq<char>) -> Seq<char>
    decreases s.len(),
{
    if s.len() == 0 {
        seq![]
    } else if s.last() == ' ' {
        escape_spaces(s.drop_last()) + seq!['\\', ' ']
    } else {
        escape_spaces(s.drop_last()).push(s.last())
    }
}

/// Checks that `name` holds no quote and no backslash, and puts a backslash
/// before each space, as the line protocol of the reports asks.
pub fn escaped_name(name: &str) -> (r: Result<String, NameError>)
    ensures
        match name_error(name@) {
            Some(e) => r == Err::<String, NameError>(e),
            None => r matches Ok(s) && s@ == escape_spaces(name@),
        },
{
    let n = name.unicode_len();
    let mut quote = false;
    let mut backslash = false;
    let mut out = String::new();
    let mut i: usize = 0;
    assert(name@.subrange(0, 0) =~= seq![]);
    while i < n
        invariant
            n == name@.len(),
            i <= n,
            quote == exists|j: int| 0 <= j < i && (name@[j] == '"' || name@[j] == '\''),
            backslash == exists|j: int| 0 <= j < i && name@[j] == '\\',
            out@ == escape_spaces(name@.subrange(0, i as int)),
        decreases n - i,
    {
        let c = name.get_char(i);
        if c == '"' || c == '\'' {
            quote = true;
        }
        if c == '\\' {
            backslash = true;
        }
        let ghost prefix = name@.subrange(0, i + 1);
        assert(prefix.drop_last() =~= name@.subrange(0, i as int));
        assert(prefix.last() == c);
        if c == ' ' {
            proof {
                reveal_strlit("\\ ");
            }
            assert("\\ "@ =~= seq!['\\', ' ']);
            out.append("\\ ");
        } else {
            let one = name.substring_char(i, i + 1);
            assert(one@ =~= seq![c]);
            out.append(one);
        }
        i = i + 1;
    }
    assert(name@.subrange(0, n as int) =~= name@);
    if quote {
        assert(name@.contains('"') || name@.contains('\''));
        return Err(NameError::Quote);
    }
    if backslash {
        assert(name@.contains('\\'));
        return Err(NameError::Backslash);
    }
    Ok(out)
}

/// The position and error of the first sensor in `devices` whose name cannot
/// be used.
pub open spec fn first_name_error(devices: Seq<Device>) -> Option<(int, NameError)>
    decreases devices.len(),
{
    if devices.len() == 0 {
        None
    } else {
        match first_name_error(devices.drop_last()) {
            Some(found) => Some(found),
            None => match name_error(devices.last().name@) {
                Some(e) => Some((devices.len() - 1, e)),
                None => None,
            },
        }
    }
}

/// The first configured sensor whose name cannot be used.
#[derive(Debug, Clone, Copy, PartialEq, Eq, Structural)]
pub struct BadName {
    /// Its position in the list.
    pub index: usize,
    pub error: NameError,
}

/// `out` lists the sensors of `devices`, each under its escaped name.
pub open spec fn escaped_devices(out: Seq<Device>, devices: Seq<Device>) -> bool {
    &&& out.len() == devices.len()
    &&& forall|i: int|
        0 <= i < devices.len() ==> {
            &&& (#[trigger] out[i]).address@ == devices[i].address@
            &&& out[i].name@ == escape_spaces(devices[i].name@)
        }
}

/// The configured sensors, each under the name it is reported by; fails on
/// the first sensor whose name cannot be used.
pub fn checked_devices(devices: &Vec<Device>) -> (r: Result<Vec<Device>, BadName>)
    ensures
        match first_name_error(devices@) {
            Some((i, e)) => r matches Err(bad) && bad.index == i && bad.error == e,
            None => r matches Ok(out) && escaped_devices(out@, devices@),
        },
{
    let mut out: Vec<Device> = Vec::new();
    let mut i: usize = 0;
    while i < devices.len()
        invariant
            i <= devices@.len(),
            first_name_error(devices@.subrange(0, i as int)) is None,
            escaped_devices(out@, devices@.subrange(0, i as int)),
        decreases devices@.len() - i,
    {
        let ghost prefix = devices@.subrange(0, i + 1);
        assert(prefix.drop_last() =~= devices@.subrange(0, i as int));
        let name = match escaped_name(devices[i].name.as_str()) {
            Ok(name) => name,
            Err(e) => {
                proof {
                    lemma_first_error_extends(devices@, i as int + 1);
                }
                return Err(BadName { index: i, error: e });
            },
        };
        out.push(Device { address: devices[i].address.clone(), name });
        i = i + 1;
    }
    assert(devices@.subrange(0, i as int) =~= devices@);
    Ok(out)
}

/// An error in a prefix is the first error of the whole list.
proof fn lemma_first_error_extends(devices: Seq<Device>, k: int)
    requires
        0 <= k <= devices.len(),
        first_name_error(devices.subrange(0, k)) is Some,
    ensures
        first_name_error(devices) == first_name_error(devices.subrange(0, k)),
    decreases devices.len() - k,
{
    if k < devices.len() {
        let next = devices.subrange(0, k + 1);
        assert(next.drop_last() =~= devices.subrange(0, k));
        lemma_first_error_extends(devices, k + 1);
    } else {
        assert(devices.subrange(0, k) =~= devices);
    }
}

} // verus!

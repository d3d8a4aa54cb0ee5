//! Audio device information.

use vstd::prelude::*;
use crate::text::str_eq;

verus! {

/// Audio device information.
#[derive(Debug, Clone)]
pub struct AudioDevice {
    /// Device name.
    pub name: String,
    /// Whether this is the default device.
    pub is_default: bool,
}

/// Whether a device named `name` is the default one, given the name of the
/// default device, if there is one.
pub open spec fn is_default_name(name: Seq<char>, default_name: Option<String>) -> bool {
    default_name is Some && default_name->0@ == name
}

/// Describes the input devices with the given names, in their order: each
/// is the default device where it has the name of the default device.
pub fn describe_devices(names: &Vec<String>, default_name: &Option<String>) -> (r: Vec<
    AudioDevice,
>)
    ensures
        r@.len() == names@.len(),
        forall|i: int|
            0 <= i < r@.len() ==> (#[trigger] r@[i]).name == names@[i] && r@[i].is_default
                == is_default_name(names@[i]@, *default_name),
{
    let mut devices: Vec<AudioDevice> = Vec::new();
    let mut i: usize = 0;
    while i < names.len()
        invariant
            i <= names@.len(),
            devices@.len() == i,
            forall|k: int|
                0 <= k < i ==> (#[trigger] devices@[k]).name == names@[k] && devices@[k].is_default
                    == is_default_name(names@[k]@, *default_name),
        decreases names@.len() - i,
    {
        let name = names[i].clone();
        let is_default = match default_name {
            Some(default) => str_eq(default.as_str(), name.as_str()),
            None => false,
        };
        devices.push(AudioDevice { name, is_default });
        i = i + 1;
    }
    devices
}

} // verus!

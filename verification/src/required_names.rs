//! The device extensions that the program cannot do without.
use vstd::prelude::*;
use crate::names::{swapchain_extension_name, texts};

verus! {

/// The texts of the device extensions that are required.
pub open spec fn required_device_extensions() -> Seq<Seq<char>> {
    seq!["VK_KHR_swapchain"@]
}

/// Lists the device extensions that are required: the one that provides the
/// image chain. A device that can present has it as a rule, but the program
/// asks all the same.
pub fn get_required_device_extensions() -> (names: Vec<String>)
    ensures
        texts(names@) == required_device_extensions(),
{
    let mut names: Vec<String> = Vec::new();
    names.push(swapchain_extension_name());
    assert(texts(names@) =~= required_device_extensions());
    names
}

} // verus!

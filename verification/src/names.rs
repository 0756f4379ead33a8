//! The names of the extensions and layers that the program asks for, and the
//! test whether everything asked for is on offer.
use vstd::prelude::*;

verus! {

/// The text of each name, in order.
pub open spec fn texts(names: Seq<String>) -> Seq<Seq<char>> {
    Seq::new(names.len(), |i: int| names[i]@)
}

/// Asks `ash::extensions::khr::Swapchain::name()` for the name of the chain
/// extension, which ash declares as the C string `VK_KHR_swapchain`, and
/// hands it back as text.
#[verifier::external_body]
pub(crate) fn swapchain_extension_name() -> (name: String)
    ensures
        name@ == "VK_KHR_swapchain"@,
{
    ash::extensions::khr::Swapchain::name().to_string_lossy().into_owned()
}

/// Asks `ash::extensions::khr::Surface::name()` for the name of the surface
/// extension, which ash declares as the C string `VK_KHR_surface`, and hands
/// it back as text.
#[verifier::external_body]
pub(crate) fn surface_extension_name() -> (name: String)
    ensures
        name@ == "VK_KHR_surface"@,
{
    ash::extensions::khr::Surface::name().to_string_lossy().into_owned()
}

/// Asks `ash::extensions::khr::Win32Surface::name()` for the name of the
/// Windows surface extension, which ash declares as the C string
/// `VK_KHR_win32_surface`, and hands it back as text.
#[verifier::external_body]
pub(crate) fn win32_surface_extension_name() -> (name: String)
    ensures
        name@ == "VK_KHR_win32_surface"@,
{
    ash::extensions::khr::Win32Surface::name().to_string_lossy().into_owned()
}

/// Asks `ash::extensions::ext::DebugUtils::name()` for the name of the debug
/// extension, which ash declares as the C string `VK_EXT_debug_utils`, and
/// hands it back as text.
#[verifier::external_body]
pub(crate) fn debug_utils_extension_name() -> (name: String)
    ensures
        name@ == "VK_EXT_debug_utils"@,
{
    ash::extensions::ext::DebugUtils::name().to_string_lossy().into_owned()
}

/// Whether `wanted` is among the names on offer.
pub fn is_offered(wanted: &String, offered: &Vec<String>) -> (found: bool)
    ensures
        found == texts(offered@).contains(wanted@),
{
    let mut i: usize = 0;
    while i < offered.len()
        invariant
            0 <= i <= offered@.len(),
            forall|k: int| 0 <= k < i ==> texts(offered@)[k] != wanted@,
        decreases offered@.len() - i,
    {
        if offered[i] == *wanted {
            assert(texts(offered@)[i as int] == wanted@);
            return true;
        }
        i += 1;
    }
    false
}

/// Whether every wanted name is on offer.
pub open spec fn all_offered(wanted: Seq<Seq<char>>, offered: Seq<Seq<char>>) -> bool {
    forall|i: int| 0 <= i < wanted.len() ==> offered.contains(#[trigger] wanted[i])
}

/// Finds the first wanted name that is not on offer.
pub fn first_missing(wanted: &Vec<String>, offered: &Vec<String>) -> (missing: Option<usize>)
    ensures
        missing is None <==> all_offered(texts(wanted@), texts(offered@)),
        missing is Some ==> {
            &&& missing->0 < wanted@.len()
            &&& !texts(offered@).contains(wanted@[missing->0 as int]@)
            &&& forall|k: int|
                0 <= k < missing->0 ==> texts(offered@).contains(#[trigger] texts(wanted@)[k])
        },
{
    let mut i: usize = 0;
    while i < wanted.len()
        invariant
            0 <= i <= wanted@.len(),
            forall|k: int| 0 <= k < i ==> texts(offered@).contains(#[trigger] texts(wanted@)[k]),
        decreases wanted@.len() - i,
    {
        if !is_offered(&wanted[i], offered) {
            assert(texts(wanted@)[i as int] == wanted@[i as int]@);
            return Some(i);
        }
        assert(texts(wanted@)[i as int] == wanted@[i as int]@);
        i += 1;
    }
    None
}

} // verus!

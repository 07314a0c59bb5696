use vstd::prelude::*;

verus! {

/// The application and engine name given to the Vulkan instance.
pub const VKINSTANCEAPPNAME: &'static str = "Space Game";

/// `VK_API_VERSION_1_0`: variant 0, version 1.0.0.
pub const API_VERSION_1_0: u32 = 4194304;

/// The kind of windowing system behind a window's display handle.
#[derive(Clone, Copy, Debug, PartialEq, Eq, Structural)]
pub enum DisplayKind {
    Windows,
    Wayland,
    Xlib,
    Xcb,
    Android,
    AppKit,
    UiKit,
    Other,
}

/// The name logged for a windowing system.
pub open spec fn window_manager_name(kind: DisplayKind) -> Seq<char> {
    match kind {
        DisplayKind::Windows => "Windows"@,
        DisplayKind::Wayland => "Wayland"@,
        DisplayKind::Xlib => "Xlib"@,
        DisplayKind::Xcb => "Xcb"@,
        DisplayKind::Android => "Android"@,
        DisplayKind::AppKit | DisplayKind::UiKit => "Apple Kit"@,
        DisplayKind::Other => "N/A"@,
    }
}

/// The name of the windowing system behind a display handle.
pub fn get_window_manager(display: DisplayKind) -> (name: &'static str)
    ensures
        name@ == window_manager_name(display),
{
    match display {
        DisplayKind::Windows => "Windows",
        DisplayKind::Wayland => "Wayland",
        DisplayKind::Xlib => "Xlib",
        DisplayKind::Xcb => "Xcb",
        DisplayKind::Android => "Android",
        DisplayKind::AppKit | DisplayKind::UiKit => "Apple Kit",
        DisplayKind::Other => "N/A",
    }
}

/// Calls `ash::vk::api_version_major`, which in ash's source is
/// `(version >> 22) & 0x7f`.
#[verifier::external_body]
fn api_version_major(version: u32) -> (major: u32)
    ensures
        major == (version >> 22u32) & 0x7fu32,
{
    ash::vk::api_version_major(version)
}

/// Calls `ash::vk::api_version_minor`, which in ash's source is
/// `(version >> 12) & 0x3ff`.
#[verifier::external_body]
fn api_version_minor(version: u32) -> (minor: u32)
    ensures
        minor == (version >> 12u32) & 0x3ffu32,
{
    ash::vk::api_version_minor(version)
}

/// Calls `ash::vk::api_version_patch`, which in ash's source is `version & 0xfff`.
#[verifier::external_body]
fn api_version_patch(version: u32) -> (patch: u32)
    ensures
        patch == version & 0xfffu32,
{
    ash::vk::api_version_patch(version)
}

/// The instance API version to request: the loader's reported version, or 1.0 when
/// the loader predates version reporting.
pub fn instance_api_version(enumerated: Option<u32>) -> (version: u32)
    ensures
        version == match enumerated {
            Some(v) => v,
            None => API_VERSION_1_0,
        },
{
    match enumerated {
        Some(v) => v,
        None => API_VERSION_1_0,
    }
}

/// The major, minor and patch numbers of a packed Vulkan version, as logged.
pub fn api_version_numbers(version: u32) -> (numbers: (u32, u32, u32))
    ensures
        numbers.0 == (version >> 22u32) & 0x7fu32,
        numbers.1 == (version >> 12u32) & 0x3ffu32,
        numbers.2 == version & 0xfffu32,
        numbers.0 < 128 && numbers.1 < 1024 && numbers.2 < 4096,
{
    let major = api_version_major(version);
    let minor = api_version_minor(version);
    let patch = api_version_patch(version);
    proof {
        assert(major <= 0x7fu32) by (bit_vector)
            requires
                major == (version >> 22u32) & 0x7fu32,
        ;
        assert(minor <= 0x3ffu32) by (bit_vector)
            requires
                minor == (version >> 12u32) & 0x3ffu32,
        ;
        assert(patch <= 0xfffu32) by (bit_vector)
            requires
                patch == version & 0xfffu32,
        ;
    }
    (major, minor, patch)
}

/// Version 1.0 reads as 1.0.0.
pub proof fn lemma_api_version_1_0_numbers()
    ensures
        (API_VERSION_1_0 >> 22u32) & 0x7fu32 == 1,
        (API_VERSION_1_0 >> 12u32) & 0x3ffu32 == 0,
        API_VERSION_1_0 & 0xfffu32 == 0,
{
    assert((4194304u32 >> 22u32) & 0x7fu32 == 1) by (bit_vector);
    assert((4194304u32 >> 12u32) & 0x3ffu32 == 0) by (bit_vector);
    assert(4194304u32 & 0xfffu32 == 0) by (bit_vector);
}

} // verus!

use vstd::prelude::*;

use crate::error::GraphicsError;
use crate::version::{make_version, packed_version};

verus! {

/// The window system a window belongs to, which decides the extension that
/// makes a surface on it.
#[derive(Debug, Clone, Copy, PartialEq, Eq)]
pub enum Platform {
    Xlib,
    Xcb,
    Wayland,
    Win32,
    /// A window system without surface support here.
    Unsupported,
}

/// Relies on `ash::khr::surface::NAME`: the name of the surface extension.
#[verifier::external_body]
fn surface_extension_name() -> (r: String)
    ensures
        r@ == "VK_KHR_surface"@,
{
    ash::khr::surface::NAME.to_string_lossy().into_owned()
}

/// Relies on `ash::khr::xlib_surface::NAME`: the name of the Xlib surface extension.
#[verifier::external_body]
fn xlib_surface_extension_name() -> (r: String)
    ensures
        r@ == "VK_KHR_xlib_surface"@,
{
    ash::khr::xlib_surface::NAME.to_string_lossy().into_owned()
}

/// Relies on `ash::khr::xcb_surface::NAME`: the name of the XCB surface extension.
#[verifier::external_body]
fn xcb_surface_extension_name() -> (r: String)
    ensures
        r@ == "VK_KHR_xcb_surface"@,
{
    ash::khr::xcb_surface::NAME.to_string_lossy().into_owned()
}

/// Relies on `ash::khr::wayland_surface::NAME`: the name of the Wayland surface extension.
#[verifier::external_body]
fn wayland_surface_extension_name() -> (r: String)
    ensures
        r@ == "VK_KHR_wayland_surface"@,
{
    ash::khr::wayland_surface::NAME.to_string_lossy().into_owned()
}

/// Relies on `ash::khr::win32_surface::NAME`: the name of the Win32 surface extension.
#[verifier::external_body]
fn win32_surface_extension_name() -> (r: String)
    ensures
        r@ == "VK_KHR_win32_surface"@,
{
    ash::khr::win32_surface::NAME.to_string_lossy().into_owned()
}

/// Relies on `ash::ext::debug_utils::NAME`: the name of the debug messenger extension.
#[verifier::external_body]
fn debug_utils_extension_name() -> (r: String)
    ensures
        r@ == "VK_EXT_debug_utils"@,
{
    ash::ext::debug_utils::NAME.to_string_lossy().into_owned()
}

/// Relies on `ash::vk::API_VERSION_1_3`: `make_api_version(0, 1, 3, 0)`.
#[verifier::external_body]
fn api_version_1_3() -> (r: u32)
    ensures
        r == packed_version(1, 3, 0),
{
    ash::vk::API_VERSION_1_3
}

/// The names of a list of strings.
pub open spec fn names(v: Seq<String>) -> Seq<Seq<char>> {
    v.map_values(|s: String| s@)
}

/// The extension that makes surfaces on windows of the platform.
pub open spec fn platform_surface_extension(p: Platform) -> Seq<char> {
    match p {
        Platform::Xlib => "VK_KHR_xlib_surface"@,
        Platform::Xcb => "VK_KHR_xcb_surface"@,
        Platform::Wayland => "VK_KHR_wayland_surface"@,
        Platform::Win32 => "VK_KHR_win32_surface"@,
        Platform::Unsupported => Seq::empty(),
    }
}

/// The instance extensions needed to present to a window of the platform:
/// the surface extension, then the platform's own.
pub open spec fn required_extensions(p: Platform) -> Seq<Seq<char>> {
    seq!["VK_KHR_surface"@, platform_surface_extension(p)]
}

/// The instance extensions needed to present to a window of `platform`, or
/// `UnsupportedPlatform`.
pub fn enumerate_required_extensions(platform: Platform) -> (r: Result<Vec<String>, GraphicsError>)
    ensures
        platform is Unsupported <==> r is Err,
        r is Err ==> r == Err::<Vec<String>, GraphicsError>(GraphicsError::UnsupportedPlatform),
        r matches Ok(v) ==> names(v@) == required_extensions(platform),
{
    let own = match platform {
        Platform::Xlib => xlib_surface_extension_name(),
        Platform::Xcb => xcb_surface_extension_name(),
        Platform::Wayland => wayland_surface_extension_name(),
        Platform::Win32 => win32_surface_extension_name(),
        Platform::Unsupported => {
            return Err(GraphicsError::UnsupportedPlatform);
        },
    };
    let mut v: Vec<String> = Vec::new();
    v.push(surface_extension_name());
    v.push(own);
    assert(names(v@) =~= required_extensions(platform));
    Ok(v)
}

/// What an instance is created with.
#[derive(Debug)]
pub struct InstanceBuilder {
    pub application_name: String,
    pub application_version: u32,
    pub api_version: u32,
    pub extensions: Vec<String>,
    pub layers: Vec<String>,
}

impl InstanceBuilder {
    /// No name, version 0, no extensions and no layers.
    pub fn new() -> (r: Self)
        ensures
            r.application_name@ == Seq::<char>::empty(),
            r.application_version == 0,
            r.api_version == 0,
            r.extensions@ == Seq::<String>::empty(),
            r.layers@ == Seq::<String>::empty(),
    {
        InstanceBuilder {
            application_name: String::new(),
            application_version: 0,
            api_version: 0,
            extensions: Vec::new(),
            layers: Vec::new(),
        }
    }

    pub fn application_name(self, name: &str) -> (r: Self)
        ensures
            r.application_name@ == name@,
            r.application_version == self.application_version,
            r.api_version == self.api_version,
            r.extensions == self.extensions,
            r.layers == self.layers,
    {
        InstanceBuilder { application_name: name.to_owned(), ..self }
    }

    pub fn application_version(self, version: u32) -> (r: Self)
        ensures
            r.application_name == self.application_name,
            r.application_version == version,
            r.api_version == self.api_version,
            r.extensions == self.extensions,
            r.layers == self.layers,
    {
        InstanceBuilder { application_version: version, ..self }
    }

    pub fn api_version(self, version: u32) -> (r: Self)
        ensures
            r.application_name == self.application_name,
            r.application_version == self.application_version,
            r.api_version == version,
            r.extensions == self.extensions,
            r.layers == self.layers,
    {
        InstanceBuilder { api_version: version, ..self }
    }

    pub fn extensions(self, extensions: Vec<String>) -> (r: Self)
        ensures
            r.application_name == self.application_name,
            r.application_version == self.application_version,
            r.api_version == self.api_version,
            r.extensions == extensions,
            r.layers == self.layers,
    {
        InstanceBuilder { extensions, ..self }
    }

    pub fn layers(self, layers: Vec<String>) -> (r: Self)
        ensures
            r.application_name == self.application_name,
            r.application_version == self.application_version,
            r.api_version == self.api_version,
            r.extensions == self.extensions,
            r.layers == layers,
    {
        InstanceBuilder { layers, ..self }
    }
}

/// The validation layer enabled with debug messages.
pub open spec fn validation_layer() -> Seq<char> {
    "VK_LAYER_KHRONOS_validation"@
}

/// The instance a renderer for a window of `platform` is created with: the
/// application's name and version, Vulkan 1.3, the extensions the window
/// needs, and with `validation` the debug messenger extension and the
/// validation layer.
pub fn instance_builder(
    platform: Platform,
    application_name: &str,
    major: u32,
    minor: u32,
    patch: u32,
    validation: bool,
) -> (r: Result<InstanceBuilder, GraphicsError>)
    ensures
        platform is Unsupported <==> r is Err,
        r is Err ==> r == Err::<InstanceBuilder, GraphicsError>(GraphicsError::UnsupportedPlatform),
        r matches Ok(b) ==> {
            &&& b.application_name@ == application_name@
            &&& b.application_version == packed_version(major, minor, patch)
            &&& b.api_version == packed_version(1, 3, 0)
            &&& names(b.extensions@) == if validation {
                required_extensions(platform).push("VK_EXT_debug_utils"@)
            } else {
                required_extensions(platform)
            }
            &&& names(b.layers@) == if validation {
                seq![validation_layer()]
            } else {
                Seq::<Seq<char>>::empty()
            }
        },
{
    let mut extensions = match enumerate_required_extensions(platform) {
        Ok(v) => v,
        Err(e) => {
            return Err(e);
        },
    };
    let ghost required = extensions@;
    let mut layers: Vec<String> = Vec::new();
    if validation {
        extensions.push(debug_utils_extension_name());
        layers.push("VK_LAYER_KHRONOS_validation".to_owned());
        assert(names(extensions@) =~= names(required).push("VK_EXT_debug_utils"@));
        assert(names(layers@) =~= seq![validation_layer()]);
    } else {
        assert(names(layers@) =~= Seq::<Seq<char>>::empty());
    }
    Ok(
        InstanceBuilder::new().application_name(application_name).application_version(
            make_version(major, minor, patch),
        ).api_version(api_version_1_3()).extensions(extensions).layers(layers),
    )
}

} // verus!

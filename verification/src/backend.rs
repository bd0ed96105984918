//! Which graphics API a context was asked for, and what follows from it.

use crate::error::GameError;
use crate::target::Dimensions;
use vstd::prelude::*;

verus! {

/// A flavour of the OpenGL family.
#[derive(Clone, Copy, Debug, PartialEq, Eq, Structural)]
pub enum Api {
    /// Desktop OpenGL.
    OpenGl,
    /// OpenGL for embedded systems.
    OpenGlEs,
    /// OpenGL in a browser.
    WebGl,
}

/// The backend a configuration asks for.
#[derive(Clone, Copy, Debug, PartialEq, Eq, Structural)]
pub enum Backend {
    /// Desktop OpenGL of the given version.
    OpenGL { major: u8, minor: u8 },
    /// OpenGL ES of the given version.
    OpenGLES { major: u8, minor: u8 },
}

/// The backend that a context is bound to: an API and its version. It is
/// fixed when the context is made.
#[derive(Clone, Copy, Debug, PartialEq, Eq, Structural)]
pub struct GlBackendSpec {
    pub major: u8,
    pub minor: u8,
    pub api: Api,
}

/// The default vertex shader for desktop OpenGL (GLSL 1.50).
pub const BASIC_150_VERTEX: &'static str =
    "#version 150 core\n\nin vec2 a_Pos;\nin vec2 a_Uv;\nin vec4 a_VertColor;\n\nin vec4 a_Src;\nin vec4 a_TCol1;\nin vec4 a_TCol2;\nin vec4 a_TCol3;\nin vec4 a_TCol4;\nin vec4 a_Color;\n\nlayout (std140) uniform Globals {\n    mat4 u_MVP;\n};\n\nout vec2 v_Uv;\nout vec4 v_Color;\n\nvoid main() {\n    v_Uv = a_Uv * a_Src.zw + a_Src.xy;\n    v_Color = a_Color * a_VertColor;\n    mat4 instance_transform = mat4(a_TCol1, a_TCol2, a_TCol3, a_TCol4);\n    vec4 position = instance_transform * vec4(a_Pos, 0, 1);\n\n    gl_Position = u_MVP * position;\n}\n";

/// The default fragment shader for desktop OpenGL (GLSL 1.50).
pub const BASIC_150_FRAGMENT: &'static str =
    "#version 150 core\n\nuniform sampler2D t_Texture;\nin vec2 v_Uv;\nin vec4 v_Color;\nout vec4 Target0;\n\nlayout (std140) uniform Globals {\n    mat4 u_MVP;\n};\n\nvoid main() {\n    Target0 = texture(t_Texture, v_Uv) * v_Color;\n}\n";

/// The default vertex shader for OpenGL ES (GLSL ES 3.00).
pub const BASIC_ES300_VERTEX: &'static str =
    "#version 300 es\n\nin vec2 a_Pos;\nin vec2 a_Uv;\nin vec4 a_VertColor;\n\nin vec4 a_Src;\nin vec4 a_TCol1;\nin vec4 a_TCol2;\nin vec4 a_TCol3;\nin vec4 a_TCol4;\nin vec4 a_Color;\n\nlayout (std140) uniform Globals {\n    mat4 u_MVP;\n};\n\nout vec2 v_Uv;\nout vec4 v_Color;\n\nvoid main() {\n    v_Uv = a_Uv * a_Src.zw + a_Src.xy;\n    v_Color = a_Color * a_VertColor;\n    mat4 instance_transform = mat4(a_TCol1, a_TCol2, a_TCol3, a_TCol4);\n    vec4 position = instance_transform * vec4(a_Pos, 0, 1);\n\n    gl_Position = u_MVP * position;\n}\n";

/// The default fragment shader for OpenGL ES (GLSL ES 3.00).
pub const BASIC_ES300_FRAGMENT: &'static str =
    "#version 300 es\n\nprecision mediump float;\n\nuniform sampler2D t_Texture;\nin vec2 v_Uv;\nin vec4 v_Color;\nout vec4 Target0;\n\nlayout (std140) uniform Globals {\n    mat4 u_MVP;\n};\n\nvoid main() {\n    Target0 = texture(t_Texture, v_Uv) * v_Color;\n}\n";

/// What a device reports of itself, as text.
#[derive(Clone, Debug, PartialEq, Eq)]
pub struct DeviceInfo {
    pub vendor: String,
    pub renderer: String,
    pub version: String,
    pub shading_language: String,
}

/// The name of an API as diagnostics show it.
pub open spec fn api_name(api: Api) -> Seq<char> {
    match api {
        Api::OpenGl => "OpenGl"@,
        Api::OpenGlEs => "OpenGlEs"@,
        Api::WebGl => "WebGl"@,
    }
}

impl Api {
    /// The name of the API as diagnostics show it.
    pub fn name(&self) -> (s: &'static str)
        ensures
            s@ == api_name(*self),
    {
        match self {
            Api::OpenGl => "OpenGl",
            Api::OpenGlEs => "OpenGlEs",
            Api::WebGl => "WebGl",
        }
    }
}

/// The diagnostic line for a device.
pub open spec fn device_text(device: DeviceInfo) -> Seq<char> {
    "Driver vendor: "@ + device.vendor@ + ", renderer "@ + device.renderer@ + ", version "@
        + device.version@ + ", shading language "@ + device.shading_language@
}

/// The vertex and fragment shader sources for an API, where it has any.
pub open spec fn shaders_of(api: Api) -> Option<(&'static str, &'static str)> {
    match api {
        Api::OpenGl => Some((BASIC_150_VERTEX, BASIC_150_FRAGMENT)),
        Api::OpenGlEs => Some((BASIC_ES300_VERTEX, BASIC_ES300_FRAGMENT)),
        Api::WebGl => None,
    }
}

/// What a concrete GPU backend tells the drawing layer about itself.
pub trait BackendSpec {
    /// The version of the backend as `(major, minor)`.
    fn version_tuple(&self) -> (u8, u8);

    /// The API flavour of the backend.
    fn api(&self) -> Api;

    /// The sources of the default vertex and fragment shaders.
    fn shaders(&self) -> Result<(&'static str, &'static str), GameError>;

    /// A line of text that describes the device.
    fn info(&self, device: &DeviceInfo) -> String;

    /// The dimensions that the colour and depth targets must be given after
    /// the window took the size `window`, or `None` where they already have it.
    fn resize_viewport(&self, color: Dimensions, depth: Dimensions, window: Dimensions) -> Option<
        Dimensions,
    >
        requires
            color == depth,
    ;
}

/// The backend that stands for a configured one.
pub open spec fn backend_spec_of(c: Backend) -> GlBackendSpec {
    match c {
        Backend::OpenGL { major, minor } => GlBackendSpec { major, minor, api: Api::OpenGl },
        Backend::OpenGLES { major, minor } => GlBackendSpec { major, minor, api: Api::OpenGlEs },
    }
}

impl GlBackendSpec {
    /// The backend that stands for a configured one: same version, and the
    /// API that the variant names.
    pub fn from(c: Backend) -> (s: GlBackendSpec)
        ensures
            s == backend_spec_of(c),
    {
        match c {
            Backend::OpenGL { major, minor } => GlBackendSpec { major, minor, api: Api::OpenGl },
            Backend::OpenGLES { major, minor } => GlBackendSpec {
                major,
                minor,
                api: Api::OpenGlEs,
            },
        }
    }
}

impl BackendSpec for GlBackendSpec {
    fn version_tuple(&self) -> (v: (u8, u8))
        ensures
            v == (self.major, self.minor),
    {
        (self.major, self.minor)
    }

    fn api(&self) -> (a: Api)
        ensures
            a == self.api,
    {
        self.api
    }

    /// The GLSL 1.50 pair for desktop OpenGL and the GLSL ES 3.00 pair for
    /// OpenGL ES. Any other API is refused with `UnsupportedApi`.
    fn shaders(&self) -> (r: Result<(&'static str, &'static str), GameError>)
        ensures
            match shaders_of(self.api) {
                Some(pair) => r == Ok::<(&'static str, &'static str), GameError>(pair),
                None => r == Err::<(&'static str, &'static str), GameError>(
                    GameError::UnsupportedApi(self.api),
                ),
            },
    {
        match self.api {
            Api::OpenGl => Ok((BASIC_150_VERTEX, BASIC_150_FRAGMENT)),
            Api::OpenGlEs => Ok((BASIC_ES300_VERTEX, BASIC_ES300_FRAGMENT)),
            Api::WebGl => Err(GameError::UnsupportedApi(self.api)),
        }
    }

    fn info(&self, device: &DeviceInfo) -> (text: String)
        ensures
            text@ == device_text(*device),
    {
        let mut text = String::from_str("Driver vendor: ");
        text.append(device.vendor.as_str());
        text.append(", renderer ");
        text.append(device.renderer.as_str());
        text.append(", version ");
        text.append(device.version.as_str());
        text.append(", shading language ");
        text.append(device.shading_language.as_str());
        text
    }

    /// The window's dimensions where they differ from the targets' own.
    fn resize_viewport(&self, color: Dimensions, depth: Dimensions, window: Dimensions) -> (r:
        Option<Dimensions>)
        ensures
            r == if window != color {
                Some(window)
            } else {
                None
            },
    {
        if window != color {
            Some(window)
        } else {
            None
        }
    }
}

impl Default for GlBackendSpec {
    /// Desktop OpenGL 3.2.
    fn default() -> (s: GlBackendSpec)
        ensures
            s == (GlBackendSpec { major: 3, minor: 2, api: Api::OpenGl }),
    {
        GlBackendSpec { major: 3, minor: 2, api: Api::OpenGl }
    }
}

} // verus!

//! The attributes of what is created with EGL. A list of attributes holds a key and a value in
//! turn, and ends with [`NONE`].
use vstd::prelude::*;

verus! {

/// The end of a list of attributes.
pub const NONE: i32 = 0x3038;

/// The device is one of Direct3D 11.
pub const EGL_D3D11_DEVICE_ANGLE: i32 = 0x33A1;

/// The platform is a device.
pub const EGL_PLATFORM_DEVICE_EXT: u32 = 0x313F;

/// The buffer is a texture of Direct3D.
pub const EGL_D3D_TEXTURE_ANGLE: u32 = 0x33A3;

const RED_SIZE: i32 = 0x3024;

const GREEN_SIZE: i32 = 0x3023;

const BLUE_SIZE: i32 = 0x3022;

const ALPHA_SIZE: i32 = 0x3021;

const DEPTH_SIZE: i32 = 0x3025;

const STENCIL_SIZE: i32 = 0x3026;

const CONTEXT_CLIENT_VERSION: i32 = 0x3098;

const TEXTURE_FORMAT: i32 = 0x3080;

const TEXTURE_RGBA: i32 = 0x305E;

const TEXTURE_TARGET: i32 = 0x3081;

const TEXTURE_2D: i32 = 0x305F;

const EGL_TEXTURE_OFFSET_X_ANGLE: i32 = 0x3490;

const EGL_TEXTURE_OFFSET_Y_ANGLE: i32 = 0x3491;

/// Whether the numbers are a list of attributes.
pub open spec fn is_attribute_list(list: Seq<i32>) -> bool {
    &&& list.len() % 2 == 1
    &&& list.last() == NONE
    &&& forall|i: int| 0 <= i < list.len() - 1 && i % 2 == 0 ==> #[trigger] list[i] != NONE
}

/// The attributes of the pixels: 8 bits for each colour and for alpha, depth and stencil.
pub fn config_attributes() -> (res: Vec<i32>)
    ensures
        res@ == seq![
            0x3024i32,
            8,
            0x3023,
            8,
            0x3022,
            8,
            0x3021,
            8,
            0x3025,
            8,
            0x3026,
            8,
            NONE,
        ],
        is_attribute_list(res@),
{
    vec![
        RED_SIZE,
        8,
        GREEN_SIZE,
        8,
        BLUE_SIZE,
        8,
        ALPHA_SIZE,
        8,
        DEPTH_SIZE,
        8,
        STENCIL_SIZE,
        8,
        NONE,
    ]
}

/// The attributes of a context: for the second version of the interface.
pub fn context_attributes() -> (res: Vec<i32>)
    ensures
        res@ == seq![0x3098i32, 2, NONE],
        is_attribute_list(res@),
{
    vec![CONTEXT_CLIENT_VERSION, 2, NONE]
}

/// The attributes of a surface on a part of a texture, from this offset on.
pub fn surface_attributes(offset: (i32, i32)) -> (res: Vec<i32>)
    ensures
        res@ == seq![
            0x3080i32,
            0x305E,
            0x3081,
            0x305F,
            0x3490,
            offset.0,
            0x3491,
            offset.1,
            NONE,
        ],
        is_attribute_list(res@),
{
    vec![
        TEXTURE_FORMAT,
        TEXTURE_RGBA,
        TEXTURE_TARGET,
        TEXTURE_2D,
        EGL_TEXTURE_OFFSET_X_ANGLE,
        offset.0,
        EGL_TEXTURE_OFFSET_Y_ANGLE,
        offset.1,
        NONE,
    ]
}

/// What is made current on a thread.
#[derive(Clone, Copy, Debug, PartialEq, Eq, Structural)]
pub enum Current {
    /// The context, to draw on a surface.
    Surface,
    /// The context without a surface.
    Context,
    /// The context for resources, without a surface.
    ResourceContext,
    Nothing,
}

/// Which context is made current, if one is.
#[derive(Clone, Copy, Debug, PartialEq, Eq, Structural)]
pub enum ContextKind {
    Drawing,
    Resource,
}

/// Whether a surface is made current, and which context.
pub fn binding(current: Current) -> (res: (bool, Option<ContextKind>))
    ensures
        res == (match current {
            Current::Surface => (true, Some(ContextKind::Drawing)),
            Current::Context => (false, Some(ContextKind::Drawing)),
            Current::ResourceContext => (false, Some(ContextKind::Resource)),
            Current::Nothing => (false, None),
        }),
{
    match current {
        Current::Surface => (true, Some(ContextKind::Drawing)),
        Current::Context => (false, Some(ContextKind::Drawing)),
        Current::ResourceContext => (false, Some(ContextKind::Resource)),
        Current::Nothing => (false, None),
    }
}

/// Whether a list of attributes gives this key this value.
pub open spec fn gives(list: Seq<i32>, key: i32, value: i32) -> bool {
    exists|i: int| 0 <= i < list.len() - 1 && i % 2 == 0 && #[trigger] list[i] == key && list[i + 1]
        == value
}

proof fn lemma_gives(list: Seq<i32>, i: int)
    requires
        0 <= i < list.len() - 1,
        i % 2 == 0,
    ensures
        gives(list, list[i], list[i + 1]),
{
}

/// A pixel has 8 bits for each of red, green, blue, alpha, depth and stencil.
pub proof fn pixels_have_eight_bits_of_each(list: Vec<i32>)
    requires
        call_ensures(config_attributes, (), list),
    ensures
        list@.len() == 13,
        list@.last() == 0x3038,
        gives(list@, 0x3024, 8),
        gives(list@, 0x3023, 8),
        gives(list@, 0x3022, 8),
        gives(list@, 0x3021, 8),
        gives(list@, 0x3025, 8),
        gives(list@, 0x3026, 8),
{
    lemma_gives(list@, 0);
    lemma_gives(list@, 2);
    lemma_gives(list@, 4);
    lemma_gives(list@, 6);
    lemma_gives(list@, 8);
    lemma_gives(list@, 10);
}

/// A context is one of the second version, and nothing else is said of it.
pub proof fn context_has_the_second_version(list: Vec<i32>)
    requires
        call_ensures(context_attributes, (), list),
    ensures
        list@.len() == 3,
        list@.last() == 0x3038,
        gives(list@, 0x3098, 2),
{
    lemma_gives(list@, 0);
}

/// A surface is an image of four colours, and lies in the texture at the offset: the first number
/// of the offset goes to the right, the second down.
pub proof fn surface_lies_at_the_offset(offset: (i32, i32), list: Vec<i32>)
    requires
        call_ensures(surface_attributes, (offset,), list),
    ensures
        list@.len() == 9,
        list@.last() == 0x3038,
        gives(list@, 0x3080, 0x305E),
        gives(list@, 0x3081, 0x305F),
        gives(list@, 0x3490, offset.0),
        gives(list@, 0x3491, offset.1),
{
    lemma_gives(list@, 0);
    lemma_gives(list@, 2);
    lemma_gives(list@, 4);
    lemma_gives(list@, 6);
}

/// A surface is made current exactly where it is drawn on. The context that draws is made current
/// with it and where it is asked for alone, and the one for resources only where it is asked for.
pub proof fn contexts_are_bound_as_asked(current: Current, res: (bool, Option<ContextKind>))
    requires
        call_ensures(binding, (current,), res),
    ensures
        res.0 <==> current is Surface,
        res.1 is None <==> current is Nothing,
        res.1 == Some(ContextKind::Resource) <==> current is ResourceContext,
        res.1 == Some(ContextKind::Drawing) <==> current is Surface || current is Context,
        NONE == 0x3038,
        EGL_D3D11_DEVICE_ANGLE == 0x33A1,
        EGL_PLATFORM_DEVICE_EXT == 0x313F,
        EGL_D3D_TEXTURE_ANGLE == 0x33A3,
{
}

} // verus!

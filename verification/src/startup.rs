//! Bringing the toolkit up.

use vstd::prelude::*;

verus! {

/// The size at which the default font is created.
pub const DEFAULT_FONT_SIZE: u32 = 16;

/// The name of the default font, "Arial", as a null-terminated byte string.
pub open spec fn default_font_name() -> Seq<u8> {
    seq![0x41u8, 0x72u8, 0x69u8, 0x61u8, 0x6cu8, 0u8]
}

/// Brings the toolkit up: first `initialise`, the toolkit's own start, then
/// `create_font` for the default font at its fixed size, then `activate` for
/// the font that was created. To be called once, before any widget is
/// created.
pub fn init(
    initialise: impl FnOnce(),
    create_font: impl FnOnce(&[u8], u32) -> usize,
    activate: impl FnOnce(usize),
)
    requires
        call_requires(initialise, ()),
        forall|name: &[u8]|
            name@ == default_font_name() ==> call_requires(create_font, (name, DEFAULT_FONT_SIZE)),
        forall|name: &[u8], font: usize|
            name@ == default_font_name() && #[trigger] call_ensures(
                create_font,
                (name, DEFAULT_FONT_SIZE),
                font,
            ) ==> call_requires(activate, (font,)),
    ensures
        call_ensures(initialise, (), ()),
        exists|name: &[u8], font: usize|
            {
                &&& name@ == default_font_name()
                &&& #[trigger] call_ensures(create_font, (name, DEFAULT_FONT_SIZE), font)
                &&& call_ensures(activate, (font,), ())
            },
{
    initialise();
    let name: [u8; 6] = [0x41, 0x72, 0x69, 0x61, 0x6c, 0];
    assert(name@ =~= default_font_name());
    let font = create_font(name.as_slice(), DEFAULT_FONT_SIZE);
    activate(font)
}

} // verus!

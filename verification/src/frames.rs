//! The frame-style registry: a closed mapping from style names to
//! indices in the toolkit's frame-style table.  Styles are looked up
//! at attribute-application time; an unknown name means the frame
//! attribute is not applied.

use crate::parse::str_eq;
use vstd::prelude::*;

verus! {

/// Number of entries in the toolkit's frame-style table; every index
/// the registry hands out lies below this bound, so a style is never
/// reinterpreted past the end of the table.
pub const FRAME_COUNT: u8 = 57;

/// The registry as a mapping: the table index of a known style name,
/// nothing for an unknown one.
#[verifier::opaque]
pub open spec fn frame_of(s: Seq<char>) -> Option<u8> {
    if s == "NoBox"@ {
        Some(0u8)
    } else if s == "FlatBox"@ {
        Some(1u8)
    } else if s == "UpBox"@ {
        Some(2u8)
    } else if s == "DownBox"@ {
        Some(3u8)
    } else if s == "UpFrame"@ {
        Some(4u8)
    } else if s == "DownFrame"@ {
        Some(5u8)
    } else if s == "ThinUpBox"@ {
        Some(6u8)
    } else if s == "ThinDownBox"@ {
        Some(7u8)
    } else if s == "ThinUpFrame"@ {
        Some(8u8)
    } else if s == "ThinDownFrame"@ {
        Some(9u8)
    } else if s == "EngravedBox"@ {
        Some(10u8)
    } else if s == "EmbossedBox"@ {
        Some(11u8)
    } else if s == "EngravedFrame"@ {
        Some(12u8)
    } else if s == "EmbossedFrame"@ {
        Some(13u8)
    } else if s == "BorderBox"@ {
        Some(14u8)
    } else if s == "ShadowBox"@ {
        Some(15u8)
    } else if s == "BorderFrame"@ {
        Some(16u8)
    } else if s == "ShadowFrame"@ {
        Some(17u8)
    } else if s == "RoundedBox"@ {
        Some(18u8)
    } else if s == "RShadowBox"@ {
        Some(19u8)
    } else if s == "RoundedFrame"@ {
        Some(20u8)
    } else if s == "RFlatBox"@ {
        Some(21u8)
    } else if s == "RoundUpBox"@ {
        Some(22u8)
    } else if s == "RoundDownBox"@ {
        Some(23u8)
    } else if s == "DiamondUpBox"@ {
        Some(24u8)
    } else if s == "DiamondDownBox"@ {
        Some(25u8)
    } else if s == "OvalBox"@ {
        Some(26u8)
    } else if s == "OShadowBox"@ {
        Some(27u8)
    } else if s == "OvalFrame"@ {
        Some(28u8)
    } else if s == "OFlatFrame"@ {
        Some(29u8)
    } else if s == "PlasticUpBox"@ {
        Some(30u8)
    } else if s == "PlasticDownBox"@ {
        Some(31u8)
    } else if s == "PlasticUpFrame"@ {
        Some(32u8)
    } else if s == "PlasticDownFrame"@ {
        Some(33u8)
    } else if s == "PlasticThinUpBox"@ {
        Some(34u8)
    } else if s == "PlasticThinDownBox"@ {
        Some(35u8)
    } else if s == "PlasticRoundUpBox"@ {
        Some(36u8)
    } else if s == "PlasticRoundDownBox"@ {
        Some(37u8)
    } else if s == "GtkUpBox"@ {
        Some(38u8)
    } else if s == "GtkDownBox"@ {
        Some(39u8)
    } else if s == "GtkUpFrame"@ {
        Some(40u8)
    } else if s == "GtkDownFrame"@ {
        Some(41u8)
    } else if s == "GtkThinUpBox"@ {
        Some(42u8)
    } else if s == "GtkThinDownBox"@ {
        Some(43u8)
    } else if s == "GtkThinUpFrame"@ {
        Some(44u8)
    } else if s == "GtkThinDownFrame"@ {
        Some(45u8)
    } else if s == "GtkRoundUpFrame"@ {
        Some(46u8)
    } else if s == "GtkRoundDownFrame"@ {
        Some(47u8)
    } else if s == "GleamUpBox"@ {
        Some(48u8)
    } else if s == "GleamDownBox"@ {
        Some(49u8)
    } else if s == "GleamUpFrame"@ {
        Some(50u8)
    } else if s == "GleamDownFrame"@ {
        Some(51u8)
    } else if s == "GleamThinUpBox"@ {
        Some(52u8)
    } else if s == "GleamThinDownBox"@ {
        Some(53u8)
    } else if s == "GleamRoundUpBox"@ {
        Some(54u8)
    } else if s == "GleamRoundDownBox"@ {
        Some(55u8)
    } else if s == "FreeBoxType"@ {
        Some(56u8)
    } else {
        None
    }
}

/// Looks a style name up in the registry.
pub fn get_frame(name: &str) -> (r: Option<u8>)
    ensures
        r == frame_of(name@),
        r is Some ==> r->0 < FRAME_COUNT,
{
    proof {
        reveal(crate::frames::frame_of);
    }
    if str_eq(name, "NoBox") {
        Some(0)
    } else if str_eq(name, "FlatBox") {
        Some(1)
    } else if str_eq(name, "UpBox") {
        Some(2)
    } else if str_eq(name, "DownBox") {
        Some(3)
    } else if str_eq(name, "UpFrame") {
        Some(4)
    } else if str_eq(name, "DownFrame") {
        Some(5)
    } else if str_eq(name, "ThinUpBox") {
        Some(6)
    } else if str_eq(name, "ThinDownBox") {
        Some(7)
    } else if str_eq(name, "ThinUpFrame") {
        Some(8)
    } else if str_eq(name, "ThinDownFrame") {
        Some(9)
    } else if str_eq(name, "EngravedBox") {
        Some(10)
    } else if str_eq(name, "EmbossedBox") {
        Some(11)
    } else if str_eq(name, "EngravedFrame") {
        Some(12)
    } else if str_eq(name, "EmbossedFrame") {
        Some(13)
    } else if str_eq(name, "BorderBox") {
        Some(14)
    } else if str_eq(name, "ShadowBox") {
        Some(15)
    } else if str_eq(name, "BorderFrame") {
        Some(16)
    } else if str_eq(name, "ShadowFrame") {
        Some(17)
    } else if str_eq(name, "RoundedBox") {
        Some(18)
    } else if str_eq(name, "RShadowBox") {
        Some(19)
    } else if str_eq(name, "RoundedFrame") {
        Some(20)
    } else if str_eq(name, "RFlatBox") {
        Some(21)
    } else if str_eq(name, "RoundUpBox") {
        Some(22)
    } else if str_eq(name, "RoundDownBox") {
        Some(23)
    } else if str_eq(name, "DiamondUpBox") {
        Some(24)
    } else if str_eq(name, "DiamondDownBox") {
        Some(25)
    } else if str_eq(name, "OvalBox") {
        Some(26)
    } else if str_eq(name, "OShadowBox") {
        Some(27)
    } else if str_eq(name, "OvalFrame") {
        Some(28)
    } else if str_eq(name, "OFlatFrame") {
        Some(29)
    } else if str_eq(name, "PlasticUpBox") {
        Some(30)
    } else if str_eq(name, "PlasticDownBox") {
        Some(31)
    } else if str_eq(name, "PlasticUpFrame") {
        Some(32)
    } else if str_eq(name, "PlasticDownFrame") {
        Some(33)
    } else if str_eq(name, "PlasticThinUpBox") {
        Some(34)
    } else if str_eq(name, "PlasticThinDownBox") {
        Some(35)
    } else if str_eq(name, "PlasticRoundUpBox") {
        Some(36)
    } else if str_eq(name, "PlasticRoundDownBox") {
        Some(37)
    } else if str_eq(name, "GtkUpBox") {
        Some(38)
    } else if str_eq(name, "GtkDownBox") {
        Some(39)
    } else if str_eq(name, "GtkUpFrame") {
        Some(40)
    } else if str_eq(name, "GtkDownFrame") {
        Some(41)
    } else if str_eq(name, "GtkThinUpBox") {
        Some(42)
    } else if str_eq(name, "GtkThinDownBox") {
        Some(43)
    } else if str_eq(name, "GtkThinUpFrame") {
        Some(44)
    } else if str_eq(name, "GtkThinDownFrame") {
        Some(45)
    } else if str_eq(name, "GtkRoundUpFrame") {
        Some(46)
    } else if str_eq(name, "GtkRoundDownFrame") {
        Some(47)
    } else if str_eq(name, "GleamUpBox") {
        Some(48)
    } else if str_eq(name, "GleamDownBox") {
        Some(49)
    } else if str_eq(name, "GleamUpFrame") {
        Some(50)
    } else if str_eq(name, "GleamDownFrame") {
        Some(51)
    } else if str_eq(name, "GleamThinUpBox") {
        Some(52)
    } else if str_eq(name, "GleamThinDownBox") {
        Some(53)
    } else if str_eq(name, "GleamRoundUpBox") {
        Some(54)
    } else if str_eq(name, "GleamRoundDownBox") {
        Some(55)
    } else if str_eq(name, "FreeBoxType") {
        Some(56)
    } else {
        None
    }
}

/// Every index the registry hands out lies inside the toolkit's
/// frame-style table.
pub proof fn lemma_frame_in_table(s: Seq<char>)
    ensures
        frame_of(s) is Some ==> frame_of(s)->0 < FRAME_COUNT,
{
    reveal(crate::frames::frame_of);
}

} // verus!

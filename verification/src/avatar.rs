use vstd::prelude::*;

use crate::float_bits::F64Bits;
use crate::text::{lowercase, to_lowercase};

verus! {

/// Visual properties of a game avatar derived from room state.
///
/// Real numbers are held as `F64Bits`; the library stores and moves them
/// but does no arithmetic on them.
#[derive(Debug, PartialEq)]
pub struct AvatarAppearance {
    /// Red, green and blue components, each in 0..=1.
    pub color: (F64Bits, F64Bits, F64Bits),
    pub scale: F64Bits,
    pub glow: F64Bits,
    pub animation: String,
    pub opacity: F64Bits,
}

impl Clone for AvatarAppearance {
    fn clone(&self) -> (copy: Self)
        ensures
            copy == *self,
    {
        AvatarAppearance {
            color: self.color,
            scale: self.scale,
            glow: self.glow,
            animation: self.animation.clone(),
            opacity: self.opacity,
        }
    }
}

/// Bits of the `f64` value 0.5.
pub const HALF_BITS: u64 = 0x3fe0_0000_0000_0000;

/// Bits of the `f64` value 0.8.
pub const FOUR_FIFTHS_BITS: u64 = 0x3fe9_9999_9999_999a;

/// Bits of the `f64` value 1.0.
pub const ONE_BITS: u64 = 0x3ff0_0000_0000_0000;

/// `appearance` is that of a room at mid vibe (0.5): colour
/// (0.5, 0.8, 0.5), scale 1.0, glow 0.5, full opacity and no animation set.
pub open spec fn is_mid_vibe(appearance: AvatarAppearance) -> bool {
    &&& appearance.color == (F64Bits(HALF_BITS), F64Bits(FOUR_FIFTHS_BITS), F64Bits(HALF_BITS))
    &&& appearance.scale == F64Bits(ONE_BITS)
    &&& appearance.glow == F64Bits(HALF_BITS)
    &&& appearance.opacity == F64Bits(ONE_BITS)
    &&& appearance.animation@ == Seq::<char>::empty()
}

impl AvatarAppearance {
    /// The appearance of a room at mid vibe (0.5), which a new agent gets.
    pub fn mid_vibe() -> (appearance: Self)
        ensures
            is_mid_vibe(appearance),
    {
        AvatarAppearance {
            color: (F64Bits(HALF_BITS), F64Bits(FOUR_FIFTHS_BITS), F64Bits(HALF_BITS)),
            scale: F64Bits(ONE_BITS),
            glow: F64Bits(HALF_BITS),
            animation: String::new(),
            opacity: F64Bits(ONE_BITS),
        }
    }
}

/// Maps room state to game avatar properties.
pub struct AvatarMapping;

/// The animation that a room phase is shown with: the four known phases
/// have names of their own, any other phase is shown by its name in
/// lowercase.
pub open spec fn phase_animation(phase: Seq<char>) -> Seq<char> {
    if phase == "Gestating"@ {
        "idle"@
    } else if phase == "Forming"@ {
        "exploring"@
    } else if phase == "Stable"@ {
        "confident"@
    } else if phase == "Dissolving"@ {
        "fading"@
    } else {
        lowercase(phase)
    }
}

/// The four known phase names are different strings.
pub proof fn lemma_phase_names_distinct()
    ensures
        "Gestating"@ != "Forming"@,
        "Gestating"@ != "Stable"@,
        "Gestating"@ != "Dissolving"@,
        "Forming"@ != "Stable"@,
        "Forming"@ != "Dissolving"@,
        "Stable"@ != "Dissolving"@,
{
    reveal_strlit("Gestating");
    reveal_strlit("Forming");
    reveal_strlit("Stable");
    reveal_strlit("Dissolving");
    assert("Gestating"@[0] != "Forming"@[0]);
    assert("Gestating"@[0] != "Stable"@[0]);
    assert("Gestating"@[0] != "Dissolving"@[0]);
    assert("Forming"@[0] != "Stable"@[0]);
    assert("Forming"@[0] != "Dissolving"@[0]);
    assert("Stable"@[0] != "Dissolving"@[0]);
}

impl AvatarMapping {
    /// Map a room phase to an animation name.
    pub fn room_phase_to_animation(phase: &str) -> (animation: String)
        ensures
            animation@ == phase_animation(phase@),
            phase@ == "Gestating"@ ==> animation@ == "idle"@,
            phase@ == "Forming"@ ==> animation@ == "exploring"@,
            phase@ == "Stable"@ ==> animation@ == "confident"@,
            phase@ == "Dissolving"@ ==> animation@ == "fading"@,
            phase@ != "Gestating"@ && phase@ != "Forming"@ && phase@ != "Stable"@ && phase@
                != "Dissolving"@ ==> animation@ == lowercase(phase@),
    {
        proof {
            lemma_phase_names_distinct();
        }
        if phase.eq("Gestating") {
            "idle".to_string()
        } else if phase.eq("Forming") {
            "exploring".to_string()
        } else if phase.eq("Stable") {
            "confident".to_string()
        } else if phase.eq("Dissolving") {
            "fading".to_string()
        } else {
            to_lowercase(phase)
        }
    }
}

} // verus!

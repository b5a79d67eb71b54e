use vstd::prelude::*;

use crate::error::ClientError;
use crate::text::{
    chars_match_ignore_case, eq_ignore_ascii_case, eq_ignore_case,
    lemma_case_blind_match_transfers, replace_underscores, underscores_to_spaces,
};

verus! {

/// Number of video modes the converter supports.
pub const MODE_COUNT: usize = 33;

/// An output video format of the converter: frame size, scan type and frame rate.
#[derive(Debug, Clone, Copy, PartialEq, Eq, Structural)]
#[allow(clippy::enum_variant_names)]
pub enum VideoMode {
    Mode525i59_94,
    Mode625i50,
    Mode720p50,
    Mode720p59_94,
    Mode720p60,
    Mode1080p23_98,
    Mode1080PsF23_98,
    Mode1080p24,
    Mode1080PsF24,
    Mode1080p25,
    Mode1080PsF25,
    Mode1080p29_97,
    Mode1080PsF29_97,
    Mode1080p30,
    Mode1080PsF30,
    Mode1080i50,
    Mode1080p50,
    Mode1080i59_94,
    Mode1080p59_94,
    Mode1080i60,
    Mode1080p60,
    Mode2KDCI23_98p,
    Mode2KDCI23_98PsF,
    Mode2KDCI24p,
    Mode2KDCI24PsF,
    Mode2160p23_98,
    Mode2160p24,
    Mode2160p25,
    Mode2160p29_97,
    Mode2160p30,
    Mode2160p50,
    Mode2160p59_94,
    Mode2160p60,
}

/// The display name of a mode, as written on the command line.
pub open spec fn display_name(m: VideoMode) -> Seq<char> {
    match m {
        VideoMode::Mode525i59_94 => "525i59.94_NTSC"@,
        VideoMode::Mode625i50 => "625i50"@,
        VideoMode::Mode720p50 => "720p50"@,
        VideoMode::Mode720p59_94 => "720p59.94"@,
        VideoMode::Mode720p60 => "720p60"@,
        VideoMode::Mode1080p23_98 => "1080p23.98"@,
        VideoMode::Mode1080PsF23_98 => "1080PsF23.98"@,
        VideoMode::Mode1080p24 => "1080p24"@,
        VideoMode::Mode1080PsF24 => "1080PsF24"@,
        VideoMode::Mode1080p25 => "1080p25"@,
        VideoMode::Mode1080PsF25 => "1080PsF25"@,
        VideoMode::Mode1080p29_97 => "1080p29.97"@,
        VideoMode::Mode1080PsF29_97 => "1080PsF29.97"@,
        VideoMode::Mode1080p30 => "1080p30"@,
        VideoMode::Mode1080PsF30 => "1080PsF30"@,
        VideoMode::Mode1080i50 => "1080i50"@,
        VideoMode::Mode1080p50 => "1080p50"@,
        VideoMode::Mode1080i59_94 => "1080i59.94"@,
        VideoMode::Mode1080p59_94 => "1080p59.94"@,
        VideoMode::Mode1080i60 => "1080i60"@,
        VideoMode::Mode1080p60 => "1080p60"@,
        VideoMode::Mode2KDCI23_98p => "2K-DCI-23.98p"@,
        VideoMode::Mode2KDCI23_98PsF => "2K-DCI-23.98PsF"@,
        VideoMode::Mode2KDCI24p => "2K-DCI-24p"@,
        VideoMode::Mode2KDCI24PsF => "2K-DCI-24PsF"@,
        VideoMode::Mode2160p23_98 => "2160p23.98"@,
        VideoMode::Mode2160p24 => "2160p24"@,
        VideoMode::Mode2160p25 => "2160p25"@,
        VideoMode::Mode2160p29_97 => "2160p29.97"@,
        VideoMode::Mode2160p30 => "2160p30"@,
        VideoMode::Mode2160p50 => "2160p50"@,
        VideoMode::Mode2160p59_94 => "2160p59.94"@,
        VideoMode::Mode2160p60 => "2160p60"@,
    }
}

/// The name of a mode as the device's protocol spells it.
pub open spec fn wire_name(m: VideoMode) -> Seq<char> {
    underscores_to_spaces(display_name(m))
}

/// Position of a mode in the converter's format table.
pub open spec fn index_of(m: VideoMode) -> int {
    match m {
        VideoMode::Mode525i59_94 => 0,
        VideoMode::Mode625i50 => 1,
        VideoMode::Mode720p50 => 2,
        VideoMode::Mode720p59_94 => 3,
        VideoMode::Mode720p60 => 4,
        VideoMode::Mode1080p23_98 => 5,
        VideoMode::Mode1080PsF23_98 => 6,
        VideoMode::Mode1080p24 => 7,
        VideoMode::Mode1080PsF24 => 8,
        VideoMode::Mode1080p25 => 9,
        VideoMode::Mode1080PsF25 => 10,
        VideoMode::Mode1080p29_97 => 11,
        VideoMode::Mode1080PsF29_97 => 12,
        VideoMode::Mode1080p30 => 13,
        VideoMode::Mode1080PsF30 => 14,
        VideoMode::Mode1080i50 => 15,
        VideoMode::Mode1080p50 => 16,
        VideoMode::Mode1080i59_94 => 17,
        VideoMode::Mode1080p59_94 => 18,
        VideoMode::Mode1080i60 => 19,
        VideoMode::Mode1080p60 => 20,
        VideoMode::Mode2KDCI23_98p => 21,
        VideoMode::Mode2KDCI23_98PsF => 22,
        VideoMode::Mode2KDCI24p => 23,
        VideoMode::Mode2KDCI24PsF => 24,
        VideoMode::Mode2160p23_98 => 25,
        VideoMode::Mode2160p24 => 26,
        VideoMode::Mode2160p25 => 27,
        VideoMode::Mode2160p29_97 => 28,
        VideoMode::Mode2160p30 => 29,
        VideoMode::Mode2160p50 => 30,
        VideoMode::Mode2160p59_94 => 31,
        VideoMode::Mode2160p60 => 32,
    }
}

/// The mode at position `i` of the converter's format table.
pub open spec fn mode_at(i: int) -> VideoMode
    recommends
        0 <= i < MODE_COUNT,
{
    if i == 0 {
        VideoMode::Mode525i59_94
    } else if i == 1 {
        VideoMode::Mode625i50
    } else if i == 2 {
        VideoMode::Mode720p50
    } else if i == 3 {
        VideoMode::Mode720p59_94
    } else if i == 4 {
        VideoMode::Mode720p60
    } else if i == 5 {
        VideoMode::Mode1080p23_98
    } else if i == 6 {
        VideoMode::Mode1080PsF23_98
    } else if i == 7 {
        VideoMode::Mode1080p24
    } else if i == 8 {
        VideoMode::Mode1080PsF24
    } else if i == 9 {
        VideoMode::Mode1080p25
    } else if i == 10 {
        VideoMode::Mode1080PsF25
    } else if i == 11 {
        VideoMode::Mode1080p29_97
    } else if i == 12 {
        VideoMode::Mode1080PsF29_97
    } else if i == 13 {
        VideoMode::Mode1080p30
    } else if i == 14 {
        VideoMode::Mode1080PsF30
    } else if i == 15 {
        VideoMode::Mode1080i50
    } else if i == 16 {
        VideoMode::Mode1080p50
    } else if i == 17 {
        VideoMode::Mode1080i59_94
    } else if i == 18 {
        VideoMode::Mode1080p59_94
    } else if i == 19 {
        VideoMode::Mode1080i60
    } else if i == 20 {
        VideoMode::Mode1080p60
    } else if i == 21 {
        VideoMode::Mode2KDCI23_98p
    } else if i == 22 {
        VideoMode::Mode2KDCI23_98PsF
    } else if i == 23 {
        VideoMode::Mode2KDCI24p
    } else if i == 24 {
        VideoMode::Mode2KDCI24PsF
    } else if i == 25 {
        VideoMode::Mode2160p23_98
    } else if i == 26 {
        VideoMode::Mode2160p24
    } else if i == 27 {
        VideoMode::Mode2160p25
    } else if i == 28 {
        VideoMode::Mode2160p29_97
    } else if i == 29 {
        VideoMode::Mode2160p30
    } else if i == 30 {
        VideoMode::Mode2160p50
    } else if i == 31 {
        VideoMode::Mode2160p59_94
    } else {
        VideoMode::Mode2160p60
    }
}

/// Every mode stands at its own position of the format table.
pub proof fn lemma_index_of(m: VideoMode)
    ensures
        0 <= index_of(m) < MODE_COUNT,
        mode_at(index_of(m)) == m,
{
}

/// Two different modes have display names that differ even when the case of
/// letters is ignored.
pub proof fn lemma_names_distinct_ignoring_case(a: VideoMode, b: VideoMode)
    ensures
        eq_ignore_case(display_name(a), display_name(b)) ==> a == b,
{
    if a != b && eq_ignore_case(display_name(a), display_name(b)) {
        reveal_strlit("525i59.94_NTSC");
        reveal_strlit("625i50");
        reveal_strlit("720p50");
        reveal_strlit("720p59.94");
        reveal_strlit("720p60");
        reveal_strlit("1080p23.98");
        reveal_strlit("1080PsF23.98");
        reveal_strlit("1080p24");
        reveal_strlit("1080PsF24");
        reveal_strlit("1080p25");
        reveal_strlit("1080PsF25");
        reveal_strlit("1080p29.97");
        reveal_strlit("1080PsF29.97");
        reveal_strlit("1080p30");
        reveal_strlit("1080PsF30");
        reveal_strlit("1080i50");
        reveal_strlit("1080p50");
        reveal_strlit("1080i59.94");
        reveal_strlit("1080p59.94");
        reveal_strlit("1080i60");
        reveal_strlit("1080p60");
        reveal_strlit("2K-DCI-23.98p");
        reveal_strlit("2K-DCI-23.98PsF");
        reveal_strlit("2K-DCI-24p");
        reveal_strlit("2K-DCI-24PsF");
        reveal_strlit("2160p23.98");
        reveal_strlit("2160p24");
        reveal_strlit("2160p25");
        reveal_strlit("2160p29.97");
        reveal_strlit("2160p30");
        reveal_strlit("2160p50");
        reveal_strlit("2160p59.94");
        reveal_strlit("2160p60");
        let x = display_name(a);
        let y = display_name(b);
        let n = x.len() - 1;
        assert(chars_match_ignore_case(x[0], y[0]));
        assert(chars_match_ignore_case(x[4], y[4]));
        assert(chars_match_ignore_case(x[5], y[5]));
        assert(chars_match_ignore_case(x[n], y[n]));
        assert(false);
    }
}

/// Whether `s` names some mode, ignoring the case of letters.
pub open spec fn names_a_mode(s: Seq<char>) -> bool {
    exists|m: VideoMode| eq_ignore_case(s, #[trigger] display_name(m))
}

/// The display names are a bijection between the modes and the set of names:
/// different modes have different names, and each name reads back as its mode.
pub proof fn lemma_display_name_bijective(a: VideoMode, b: VideoMode)
    ensures
        display_name(a) == display_name(b) <==> a == b,
        names_a_mode(display_name(a)),
{
    assert(eq_ignore_case(display_name(a), display_name(a)));
    if display_name(a) == display_name(b) {
        lemma_names_distinct_ignoring_case(a, b);
    }
}

/// The wire name of a mode is its display name with each underscore turned
/// into one space and every other character left as it is. Display names hold
/// no space, so no two modes share a wire name.
pub proof fn lemma_wire_name_replaces_underscores(m: VideoMode)
    ensures
        forall|i: int| 0 <= i < display_name(m).len() ==> #[trigger] display_name(m)[i] != ' ',
        forall|o: VideoMode| #[trigger] wire_name(o) == wire_name(m) ==> o == m,
        wire_name(m).len() == display_name(m).len(),
        forall|i: int|
            0 <= i < display_name(m).len() ==> {
                &&& display_name(m)[i] == '_' ==> #[trigger] wire_name(m)[i] == ' '
                &&& display_name(m)[i] != '_' ==> wire_name(m)[i] == display_name(m)[i]
            },
{
    lemma_no_space_in_display_names();
    assert forall|o: VideoMode| #[trigger] wire_name(o) == wire_name(m) implies o == m by {
        assert(display_name(o).len() == wire_name(o).len());
        assert(display_name(m).len() == wire_name(m).len());
        assert forall|i: int| 0 <= i < display_name(o).len() implies #[trigger] display_name(o)[i]
            == display_name(m)[i] by {
            assert(wire_name(o)[i] == wire_name(m)[i]);
            assert(display_name(o)[i] != ' ' && display_name(m)[i] != ' ');
        }
        assert(display_name(o) =~= display_name(m));
        lemma_display_name_bijective(o, m);
    }
}

/// No display name holds a space.
proof fn lemma_no_space_in_display_names()
    ensures
        forall|m: VideoMode, i: int|
            0 <= i < display_name(m).len() ==> #[trigger] display_name(m)[i] != ' ',
{
    reveal_strlit("525i59.94_NTSC");
    reveal_strlit("625i50");
    reveal_strlit("720p50");
    reveal_strlit("720p59.94");
    reveal_strlit("720p60");
    reveal_strlit("1080p23.98");
    reveal_strlit("1080PsF23.98");
    reveal_strlit("1080p24");
    reveal_strlit("1080PsF24");
    reveal_strlit("1080p25");
    reveal_strlit("1080PsF25");
    reveal_strlit("1080p29.97");
    reveal_strlit("1080PsF29.97");
    reveal_strlit("1080p30");
    reveal_strlit("1080PsF30");
    reveal_strlit("1080i50");
    reveal_strlit("1080p50");
    reveal_strlit("1080i59.94");
    reveal_strlit("1080p59.94");
    reveal_strlit("1080i60");
    reveal_strlit("1080p60");
    reveal_strlit("2K-DCI-23.98p");
    reveal_strlit("2K-DCI-23.98PsF");
    reveal_strlit("2K-DCI-24p");
    reveal_strlit("2K-DCI-24PsF");
    reveal_strlit("2160p23.98");
    reveal_strlit("2160p24");
    reveal_strlit("2160p25");
    reveal_strlit("2160p29.97");
    reveal_strlit("2160p30");
    reveal_strlit("2160p50");
    reveal_strlit("2160p59.94");
    reveal_strlit("2160p60");
}

impl VideoMode {
    /// Every mode, in the order of the converter's format table.
    pub fn all() -> (r: Vec<VideoMode>)
        ensures
            r@.len() == MODE_COUNT,
            forall|i: int| 0 <= i < MODE_COUNT ==> #[trigger] r@[i] == mode_at(i),
    {
        let r = vec![
            VideoMode::Mode525i59_94,
            VideoMode::Mode625i50,
            VideoMode::Mode720p50,
            VideoMode::Mode720p59_94,
            VideoMode::Mode720p60,
            VideoMode::Mode1080p23_98,
            VideoMode::Mode1080PsF23_98,
            VideoMode::Mode1080p24,
            VideoMode::Mode1080PsF24,
            VideoMode::Mode1080p25,
            VideoMode::Mode1080PsF25,
            VideoMode::Mode1080p29_97,
            VideoMode::Mode1080PsF29_97,
            VideoMode::Mode1080p30,
            VideoMode::Mode1080PsF30,
            VideoMode::Mode1080i50,
            VideoMode::Mode1080p50,
            VideoMode::Mode1080i59_94,
            VideoMode::Mode1080p59_94,
            VideoMode::Mode1080i60,
            VideoMode::Mode1080p60,
            VideoMode::Mode2KDCI23_98p,
            VideoMode::Mode2KDCI23_98PsF,
            VideoMode::Mode2KDCI24p,
            VideoMode::Mode2KDCI24PsF,
            VideoMode::Mode2160p23_98,
            VideoMode::Mode2160p24,
            VideoMode::Mode2160p25,
            VideoMode::Mode2160p29_97,
            VideoMode::Mode2160p30,
            VideoMode::Mode2160p50,
            VideoMode::Mode2160p59_94,
            VideoMode::Mode2160p60,
        ];
        r
    }

    /// The display name of this mode.
    pub fn name(&self) -> (r: &'static str)
        ensures
            r@ == display_name(*self),
    {
        match self {
            VideoMode::Mode525i59_94 => "525i59.94_NTSC",
            VideoMode::Mode625i50 => "625i50",
            VideoMode::Mode720p50 => "720p50",
            VideoMode::Mode720p59_94 => "720p59.94",
            VideoMode::Mode720p60 => "720p60",
            VideoMode::Mode1080p23_98 => "1080p23.98",
            VideoMode::Mode1080PsF23_98 => "1080PsF23.98",
            VideoMode::Mode1080p24 => "1080p24",
            VideoMode::Mode1080PsF24 => "1080PsF24",
            VideoMode::Mode1080p25 => "1080p25",
            VideoMode::Mode1080PsF25 => "1080PsF25",
            VideoMode::Mode1080p29_97 => "1080p29.97",
            VideoMode::Mode1080PsF29_97 => "1080PsF29.97",
            VideoMode::Mode1080p30 => "1080p30",
            VideoMode::Mode1080PsF30 => "1080PsF30",
            VideoMode::Mode1080i50 => "1080i50",
            VideoMode::Mode1080p50 => "1080p50",
            VideoMode::Mode1080i59_94 => "1080i59.94",
            VideoMode::Mode1080p59_94 => "1080p59.94",
            VideoMode::Mode1080i60 => "1080i60",
            VideoMode::Mode1080p60 => "1080p60",
            VideoMode::Mode2KDCI23_98p => "2K-DCI-23.98p",
            VideoMode::Mode2KDCI23_98PsF => "2K-DCI-23.98PsF",
            VideoMode::Mode2KDCI24p => "2K-DCI-24p",
            VideoMode::Mode2KDCI24PsF => "2K-DCI-24PsF",
            VideoMode::Mode2160p23_98 => "2160p23.98",
            VideoMode::Mode2160p24 => "2160p24",
            VideoMode::Mode2160p25 => "2160p25",
            VideoMode::Mode2160p29_97 => "2160p29.97",
            VideoMode::Mode2160p30 => "2160p30",
            VideoMode::Mode2160p50 => "2160p50",
            VideoMode::Mode2160p59_94 => "2160p59.94",
            VideoMode::Mode2160p60 => "2160p60",
        }
    }

    /// The name of this mode in the device's protocol: the display name with
    /// each underscore written as a space.
    pub fn protocol_name(&self) -> (r: String)
        ensures
            r@ == wire_name(*self),
    {
        replace_underscores(self.name())
    }

    /// The display names of all modes, in the order of the format table.
    pub fn variants() -> (r: Vec<&'static str>)
        ensures
            r@.len() == MODE_COUNT,
            forall|i: int| 0 <= i < MODE_COUNT ==> (#[trigger] r@[i])@ == display_name(mode_at(i)),
    {
        let modes = VideoMode::all();
        let mut r: Vec<&'static str> = Vec::new();
        let mut i: usize = 0;
        while i < modes.len()
            invariant
                modes@.len() == MODE_COUNT,
                forall|k: int| 0 <= k < MODE_COUNT ==> #[trigger] modes@[k] == mode_at(k),
                i <= MODE_COUNT,
                r@.len() == i,
                forall|k: int| 0 <= k < i ==> (#[trigger] r@[k])@ == display_name(mode_at(k)),
            decreases MODE_COUNT - i,
        {
            r.push(modes[i].name());
            i = i + 1;
        }
        r
    }

    /// Looks a mode up by its display name, ignoring the case of letters.
    /// A name outside the format table is `InvalidMode`.
    pub fn from_str(s: &str) -> (r: Result<VideoMode, ClientError>)
        ensures
            forall|m: VideoMode| (r == Ok::<VideoMode, ClientError>(m)) <==> eq_ignore_case(s@, display_name(m)),
            r is Err <==> !names_a_mode(s@),
            r is Err ==> r == Err::<VideoMode, ClientError>(ClientError::InvalidMode),
    {
        let modes = VideoMode::all();
        let mut i: usize = 0;
        while i < modes.len()
            invariant
                modes@.len() == MODE_COUNT,
                forall|k: int| 0 <= k < MODE_COUNT ==> #[trigger] modes@[k] == mode_at(k),
                i <= MODE_COUNT,
                forall|k: int| 0 <= k < i ==> !eq_ignore_case(s@, display_name(#[trigger] mode_at(k))),
            decreases MODE_COUNT - i,
        {
            let m = modes[i];
            if eq_ignore_ascii_case(s, m.name()) {
                proof {
                    assert forall|o: VideoMode| eq_ignore_case(s@, display_name(o)) implies o == m by {
                        lemma_case_blind_match_transfers(s@, display_name(m), display_name(o));
                        lemma_names_distinct_ignoring_case(m, o);
                    }
                }
                return Ok(m);
            }
            i = i + 1;
        }
        proof {
            assert forall|o: VideoMode| !eq_ignore_case(s@, #[trigger] display_name(o)) by {
                lemma_index_of(o);
            }
        }
        Err(ClientError::InvalidMode)
    }
}

} // verus!

//! The two configuration files that the injectors write into the game folder
//! and that the injected module reads at start-up, and the settings that the
//! module's detours apply.

use vstd::prelude::*;
use crate::text::{
    ascii_lower, ascii_lower_chars, chars_equal, chars_of, i32_text, i32_to_text,
    lemma_i32_text_parses_back, lemma_trim_ascii_lower, lemma_trim_ignores_padding, all_white_space, parse_i32_chars, parse_i32_spec, trim, trim_chars, trim_end,
    trim_start,
};

verus! {

/// File, in the game folder, that holds the target frame rate.
pub const FPS_FILE_NAME: &'static str = "unlocker_fps.txt";

/// File, in the game folder, that holds the vertical-sync switch.
pub const VSYNC_FILE_NAME: &'static str = "unlocker_vsync.txt";

/// Target frame rate used when no setting says otherwise.
pub const DEFAULT_TARGET_FPS: i32 = 120;

// ---------------------------------------------------------------------------
// Specifications
// ---------------------------------------------------------------------------

/// The words that switch vertical sync on (compared after ASCII lower-casing).
pub open spec fn is_enable_word(k: Seq<char>) -> bool {
    ||| k == seq!['1']
    ||| k == seq!['t', 'r', 'u', 'e']
    ||| k == seq!['o', 'n']
    ||| k == seq!['e', 'n', 'a', 'b', 'l', 'e']
    ||| k == seq!['e', 'n', 'a', 'b', 'l', 'e', 'd']
}

/// The words that switch vertical sync off (compared after ASCII lower-casing).
pub open spec fn is_disable_word(k: Seq<char>) -> bool {
    ||| k == seq!['0']
    ||| k == seq!['f', 'a', 'l', 's', 'e']
    ||| k == seq!['o', 'f', 'f']
    ||| k == seq!['d', 'i', 's', 'a', 'b', 'l', 'e']
    ||| k == seq!['d', 'i', 's', 'a', 'b', 'l', 'e', 'd']
}

/// The text written to the vertical-sync file.
pub open spec fn vsync_text(enable: bool) -> Seq<char> {
    if enable {
        seq!['1']
    } else {
        seq!['0']
    }
}

/// A frame rate typed by a user or read from the FPS file: the trimmed text
/// read as an `i32`, accepted only when positive.
pub open spec fn positive_fps_spec(t: Seq<char>) -> Option<i32> {
    match parse_i32_spec(trim(t)) {
        Some(v) => if v > 0 {
            Some(v)
        } else {
            None
        },
        None => None,
    }
}

/// Whether the text of the vertical-sync file switches vertical sync on.
pub open spec fn vsync_setting_spec(t: Seq<char>) -> bool {
    is_enable_word(ascii_lower(trim(t)))
}

/// The target frame rate after the FPS file was looked at: a readable file
/// with a positive number replaces it, anything else keeps it.
pub open spec fn fps_after_file(current: i32, file: Option<Seq<char>>) -> i32 {
    match file {
        Some(t) => match positive_fps_spec(t) {
            Some(v) => v,
            None => current,
        },
        None => current,
    }
}

/// The vertical-sync switch after the vertical-sync file was looked at: off
/// unless a readable file holds an enabling word.
pub open spec fn vsync_after_file(file: Option<Seq<char>>) -> bool {
    match file {
        Some(t) => vsync_setting_spec(t),
        None => false,
    }
}

/// The frame rate that the detour of `Application.set_targetFrameRate` hands on.
pub open spec fn hooked_frame_rate(target_fps: i32, requested: i32) -> i32 {
    if target_fps > 0 {
        target_fps
    } else {
        requested
    }
}

/// The count that the detour of `QualitySettings.set_vSyncCount` hands on.
pub open spec fn hooked_vsync_count(vsync_enabled: bool, requested: i32) -> i32 {
    if vsync_enabled {
        requested
    } else {
        0
    }
}

pub open spec fn opt_view(t: Option<&str>) -> Option<Seq<char>> {
    match t {
        Some(s) => Some(s@),
        None => None,
    }
}

// ---------------------------------------------------------------------------
// Executable functions
// ---------------------------------------------------------------------------

/// Whether `k` is one of the enabling words.
pub fn is_enable_word_exec(k: &Vec<char>) -> (r: bool)
    ensures
        r == is_enable_word(k@),
{
    proof {
        reveal_strlit("1");
        reveal_strlit("true");
        reveal_strlit("on");
        reveal_strlit("enable");
        reveal_strlit("enabled");
        assert("1"@ =~= seq!['1']);
        assert("true"@ =~= seq!['t', 'r', 'u', 'e']);
        assert("on"@ =~= seq!['o', 'n']);
        assert("enable"@ =~= seq!['e', 'n', 'a', 'b', 'l', 'e']);
        assert("enabled"@ =~= seq!['e', 'n', 'a', 'b', 'l', 'e', 'd']);
    }
    chars_equal(k, "1") || chars_equal(k, "true") || chars_equal(k, "on") || chars_equal(
        k,
        "enable",
    ) || chars_equal(k, "enabled")
}

/// Whether `k` is one of the disabling words.
pub fn is_disable_word_exec(k: &Vec<char>) -> (r: bool)
    ensures
        r == is_disable_word(k@),
{
    proof {
        reveal_strlit("0");
        reveal_strlit("false");
        reveal_strlit("off");
        reveal_strlit("disable");
        reveal_strlit("disabled");
        assert("0"@ =~= seq!['0']);
        assert("false"@ =~= seq!['f', 'a', 'l', 's', 'e']);
        assert("off"@ =~= seq!['o', 'f', 'f']);
        assert("disable"@ =~= seq!['d', 'i', 's', 'a', 'b', 'l', 'e']);
        assert("disabled"@ =~= seq!['d', 'i', 's', 'a', 'b', 'l', 'e', 'd']);
    }
    chars_equal(k, "0") || chars_equal(k, "false") || chars_equal(k, "off") || chars_equal(
        k,
        "disable",
    ) || chars_equal(k, "disabled")
}

/// The contents written to the FPS file for a target frame rate.
pub fn fps_file_contents(fps: i32) -> (r: String)
    ensures
        r@ == i32_text(fps),
{
    i32_to_text(fps)
}

/// The contents written to the vertical-sync file.
pub fn vsync_file_contents(enable: bool) -> (r: String)
    ensures
        r@ == vsync_text(enable),
{
    proof {
        reveal_strlit("1");
        reveal_strlit("0");
    }
    if enable {
        String::from_str("1")
    } else {
        String::from_str("0")
    }
}

/// A positive frame rate read from text (the FPS file, or the frame-rate box
/// of the graphical injector): the trimmed text as an `i32`, `None` unless it
/// parses and is above zero.
pub fn parse_positive_fps(text: &str) -> (r: Option<i32>)
    ensures
        r == positive_fps_spec(text@),
        r matches Some(v) ==> v > 0,
{
    let chars: Vec<char> = chars_of(text);
    let trimmed: Vec<char> = trim_chars(&chars);
    match parse_i32_chars(&trimmed) {
        Some(v) => if v > 0 {
            Some(v)
        } else {
            None
        },
        None => None,
    }
}

/// Whether the text of the vertical-sync file switches vertical sync on: the
/// trimmed, ASCII-lower-cased text is `1`, `true`, `on`, `enable` or `enabled`.
pub fn parse_vsync_setting(text: &str) -> (r: bool)
    ensures
        r == vsync_setting_spec(text@),
{
    let chars: Vec<char> = chars_of(text);
    let trimmed: Vec<char> = trim_chars(&chars);
    let lowered: Vec<char> = ascii_lower_chars(&trimmed);
    is_enable_word_exec(&lowered)
}

/// The settings of the injected module.
pub struct DllSettings {
    pub target_fps: i32,
    pub vsync_enabled: bool,
}

impl DllSettings {
    /// Settings are well formed when the target frame rate is positive.
    pub open spec fn wf(&self) -> bool {
        self.target_fps > 0
    }

    /// The settings before any file was read: 120 frames per second, vertical
    /// sync off.
    pub fn new() -> (r: DllSettings)
        ensures
            r.target_fps == DEFAULT_TARGET_FPS,
            !r.vsync_enabled,
            r.wf(),
    {
        DllSettings { target_fps: DEFAULT_TARGET_FPS, vsync_enabled: false }
    }

    /// Takes the FPS file into account; `None` stands for a file that could
    /// not be read.
    pub fn load_fps_file(&mut self, text: Option<&str>)
        ensures
            final(self).target_fps == fps_after_file(old(self).target_fps, opt_view(text)),
            final(self).vsync_enabled == old(self).vsync_enabled,
            old(self).wf() ==> final(self).wf(),
    {
        if let Some(t) = text {
            if let Some(v) = parse_positive_fps(t) {
                self.target_fps = v;
            }
        }
    }

    /// Takes the vertical-sync file into account; `None` stands for a file
    /// that could not be read, which switches vertical sync off.
    pub fn load_vsync_file(&mut self, text: Option<&str>)
        ensures
            final(self).vsync_enabled == vsync_after_file(opt_view(text)),
            final(self).target_fps == old(self).target_fps,
    {
        match text {
            Some(t) => {
                self.vsync_enabled = parse_vsync_setting(t);
            },
            None => {
                self.vsync_enabled = false;
            },
        }
    }

    /// The frame rate that the detour hands to the game's setter when the game
    /// asks for `requested`: the target frame rate when it is positive.
    pub fn frame_rate_for(&self, requested: i32) -> (r: i32)
        ensures
            r == hooked_frame_rate(self.target_fps, requested),
            self.wf() ==> r == self.target_fps,
    {
        if self.target_fps > 0 {
            self.target_fps
        } else {
            requested
        }
    }

    /// The count that the detour hands to the game's vertical-sync setter when
    /// the game asks for `requested`: zero unless vertical sync is enabled.
    pub fn vsync_count_for(&self, requested: i32) -> (r: i32)
        ensures
            r == hooked_vsync_count(self.vsync_enabled, requested),
    {
        if self.vsync_enabled {
            requested
        } else {
            0
        }
    }

    /// The frame rate set once right after the detour is installed, if any.
    pub fn initial_frame_rate(&self) -> (r: Option<i32>)
        ensures
            r == (if self.target_fps > 0 {
                Some(self.target_fps)
            } else {
                None
            }),
    {
        if self.target_fps > 0 {
            Some(self.target_fps)
        } else {
            None
        }
    }

    /// The vertical-sync count set once right after the detour is installed:
    /// one when enabled, zero otherwise.
    pub fn initial_vsync_count(&self) -> (r: i32)
        ensures
            r == (if self.vsync_enabled {
                1i32
            } else {
                0i32
            }),
    {
        if self.vsync_enabled {
            1
        } else {
            0
        }
    }
}

// ---------------------------------------------------------------------------
// Laws
// ---------------------------------------------------------------------------

/// The FPS file that an injector writes for a frame rate is read back by the
/// injected module as that frame rate when it is positive, and ignored
/// otherwise.
pub proof fn law_fps_file_round_trip(fps: i32)
    ensures
        positive_fps_spec(i32_text(fps)) == (if fps > 0 {
            Some(fps)
        } else {
            None
        }),
{
    lemma_i32_text_parses_back(fps);
}

/// The vertical-sync file that an injector writes is read back as the same
/// switch.
pub proof fn law_vsync_file_round_trip(enable: bool)
    ensures
        vsync_setting_spec(vsync_text(enable)) == enable,
{
    let t = vsync_text(enable);
    assert(trim_start(t) == t);
    assert(trim_end(t) == t);
    assert(ascii_lower(t) =~= t);
}

/// Whatever settings the module had, after reading the files that an
/// injector wrote for a positive frame rate and a vertical-sync switch, it
/// holds exactly those values.
pub proof fn law_written_settings_are_loaded(current: i32, fps: i32, enable: bool)
    requires
        fps > 0,
    ensures
        fps_after_file(current, Some(i32_text(fps))) == fps,
        vsync_after_file(Some(vsync_text(enable))) == enable,
{
    law_fps_file_round_trip(fps);
    law_vsync_file_round_trip(enable);
}

/// With well-formed settings the frame-rate detour always hands on the
/// target frame rate, whatever the game asks for; with vertical sync off the
/// vertical-sync detour always hands on zero.
pub proof fn law_detours_force_settings(target_fps: i32, vsync_enabled: bool, requested: i32)
    requires
        target_fps > 0,
    ensures
        hooked_frame_rate(target_fps, requested) == target_fps,
        !vsync_enabled ==> hooked_vsync_count(vsync_enabled, requested) == 0,
{
}

/// With vertical sync enabled the vertical-sync detour hands on exactly the
/// count the game asks for, and with it disabled always zero; the frame-rate
/// detour hands the request on unchanged only when no positive target is set.
pub proof fn law_vsync_detour_passes_request(requested: i32, target_fps: i32)
    ensures
        hooked_vsync_count(true, requested) == requested,
        hooked_vsync_count(false, requested) == 0,
        target_fps <= 0 ==> hooked_frame_rate(target_fps, requested) == requested,
{
}

/// The module reads the vertical-sync file as its trimmed, ASCII-lower-cased
/// text compared with the enabling words; a missing file means off.
pub proof fn law_vsync_file_reading(t: Seq<char>)
    ensures
        vsync_after_file(Some(t)) == is_enable_word(ascii_lower(trim(t))),
        !vsync_after_file(None),
{
}

/// White space around the text of the vertical-sync file and the ASCII case
/// of its letters do not change the switch.
pub proof fn law_vsync_file_ignores_padding_and_case(p: Seq<char>, t: Seq<char>, q: Seq<char>)
    requires
        all_white_space(p),
        all_white_space(q),
    ensures
        vsync_after_file(Some(p + t + q)) == vsync_after_file(Some(t)),
        vsync_after_file(Some(ascii_lower(t))) == vsync_after_file(Some(t)),
{
    lemma_trim_ignores_padding(p, t, q);
    lemma_trim_ascii_lower(t);
    lemma_trim_ascii_lower(trim(t));
}

/// White space around the text of the FPS file does not change the frame
/// rate read from it; a missing file keeps the current frame rate, and a
/// file either keeps it or gives a positive one.
pub proof fn law_fps_file_ignores_padding(current: i32, p: Seq<char>, t: Seq<char>, q: Seq<char>)
    requires
        all_white_space(p),
        all_white_space(q),
    ensures
        fps_after_file(current, Some(p + t + q)) == fps_after_file(current, Some(t)),
        fps_after_file(current, None) == current,
        fps_after_file(current, Some(t)) == current || fps_after_file(current, Some(t)) > 0,
{
    lemma_trim_ignores_padding(p, t, q);
}

} // verus!

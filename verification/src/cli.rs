//! The command line of the console injector:
//! `--fps N`, `--vsync on|off` and `--wait SECONDS`.

use vstd::prelude::*;
use crate::text::{ascii_lower, ascii_lower_chars, chars_equal, chars_of, parse_i32_chars,
    parse_i32_spec, parse_u64_chars, parse_u64_spec, lemma_double_dash_is_no_value};
use crate::config::{is_disable_word, is_disable_word_exec, is_enable_word, is_enable_word_exec,
    DEFAULT_TARGET_FPS};
use crate::process::texts_view;

verus! {

/// The settings that the command line selects.
pub struct CliOptions {
    /// Target frame rate, at least one.
    pub fps: i32,
    /// Vertical sync: `None` leaves the vertical-sync file alone.
    pub vsync: Option<bool>,
    /// How long to wait for the game process, in seconds; zero looks once.
    pub wait_seconds: u64,
}

/// The settings without any argument.
pub open spec fn default_cli() -> CliOptions {
    CliOptions { fps: DEFAULT_TARGET_FPS, vsync: None, wait_seconds: 0 }
}

/// The effect of `--fps v`: a number is taken, raised to one if smaller;
/// anything else is ignored.
pub open spec fn apply_fps_arg(o: CliOptions, v: Seq<char>) -> CliOptions {
    match parse_i32_spec(v) {
        Some(n) => CliOptions {
            fps: if n < 1 {
                1i32
            } else {
                n
            },
            vsync: o.vsync,
            wait_seconds: o.wait_seconds,
        },
        None => o,
    }
}

/// The effect of `--vsync v`: an enabling or disabling word (in any ASCII
/// case) sets the switch; anything else is ignored.
pub open spec fn apply_vsync_arg(o: CliOptions, v: Seq<char>) -> CliOptions {
    let l = ascii_lower(v);
    if is_enable_word(l) {
        CliOptions { fps: o.fps, vsync: Some(true), wait_seconds: o.wait_seconds }
    } else if is_disable_word(l) {
        CliOptions { fps: o.fps, vsync: Some(false), wait_seconds: o.wait_seconds }
    } else {
        o
    }
}

/// The effect of `--wait v`: a number of seconds is taken; anything else is
/// ignored.
pub open spec fn apply_wait_arg(o: CliOptions, v: Seq<char>) -> CliOptions {
    match parse_u64_spec(v) {
        Some(n) => CliOptions { fps: o.fps, vsync: o.vsync, wait_seconds: n },
        None => o,
    }
}

/// The settings after reading `args` from left to right, starting from `o`.
/// A flag takes the next argument as its value, whatever it is; a flag
/// without a value and any unknown argument are ignored.
pub open spec fn cli_from(args: Seq<Seq<char>>, o: CliOptions) -> CliOptions
    decreases args.len(),
{
    if args.len() == 0 {
        o
    } else if args[0] == "--fps"@ || args[0] == "--vsync"@ || args[0] == "--wait"@ {
        if args.len() >= 2 {
            let v = args[1];
            let next = if args[0] == "--fps"@ {
                apply_fps_arg(o, v)
            } else if args[0] == "--vsync"@ {
                apply_vsync_arg(o, v)
            } else {
                apply_wait_arg(o, v)
            };
            cli_from(args.skip(2), next)
        } else {
            o
        }
    } else {
        cli_from(args.skip(1), o)
    }
}

/// Reads the arguments that follow the program name.
pub fn parse_cli_args(args: &Vec<String>) -> (r: CliOptions)
    ensures
        r == cli_from(texts_view(args@), default_cli()),
        r.fps >= 1,
{
    let ghost all = texts_view(args@);
    let mut o: CliOptions = CliOptions { fps: DEFAULT_TARGET_FPS, vsync: None, wait_seconds: 0 };
    let mut i: usize = 0;
    assert(all.skip(0) =~= all);
    while i < args.len()
        invariant
            i <= args.len(),
            all == texts_view(args@),
            cli_from(all, default_cli()) == cli_from(all.skip(i as int), o),
            o.fps >= 1,
        decreases args.len() - i,
    {
        let ghost rest = all.skip(i as int);
        assert(rest[0] == args@[i as int]@);
        let flag: &str = args[i].as_str();
        let is_fps: bool = chars_equal(&chars_of(flag), "--fps");
        let is_vsync: bool = chars_equal(&chars_of(flag), "--vsync");
        let is_wait: bool = chars_equal(&chars_of(flag), "--wait");
        if is_fps || is_vsync || is_wait {
            if i + 1 >= args.len() {
                assert(rest.len() < 2);
                return o;
            }
            assert(rest[1] == args@[i + 1]@);
            let value: Vec<char> = chars_of(args[i + 1].as_str());
            if is_fps {
                match parse_i32_chars(&value) {
                    Some(n) => {
                        o = CliOptions {
                            fps: if n < 1 {
                                1
                            } else {
                                n
                            },
                            vsync: o.vsync,
                            wait_seconds: o.wait_seconds,
                        };
                    },
                    None => {},
                }
            } else if is_vsync {
                let lowered: Vec<char> = ascii_lower_chars(&value);
                if is_enable_word_exec(&lowered) {
                    o = CliOptions { fps: o.fps, vsync: Some(true), wait_seconds: o.wait_seconds };
                } else if is_disable_word_exec(&lowered) {
                    o = CliOptions { fps: o.fps, vsync: Some(false), wait_seconds: o.wait_seconds };
                }
            } else {
                match parse_u64_chars(&value) {
                    Some(n) => {
                        o = CliOptions { fps: o.fps, vsync: o.vsync, wait_seconds: n };
                    },
                    None => {},
                }
            }
            assert(rest.skip(2) =~= all.skip(i + 2));
            i = i + 2;
        } else {
            assert(rest.skip(1) =~= all.skip(i + 1));
            i = i + 1;
        }
    }
    assert(all.skip(i as int).len() == 0);
    o
}

/// The frame rate that the console injector writes is always positive, so
/// the injected module always takes it (see `config::law_fps_file_round_trip`).
pub proof fn law_cli_fps_is_positive(args: Seq<Seq<char>>, o: CliOptions)
    requires
        o.fps >= 1,
    ensures
        cli_from(args, o).fps >= 1,
    decreases args.len(),
{
    if args.len() > 0 {
        if args[0] == "--fps"@ || args[0] == "--vsync"@ || args[0] == "--wait"@ {
            if args.len() >= 2 {
                let v = args[1];
                let next = if args[0] == "--fps"@ {
                    apply_fps_arg(o, v)
                } else if args[0] == "--vsync"@ {
                    apply_vsync_arg(o, v)
                } else {
                    apply_wait_arg(o, v)
                };
                law_cli_fps_is_positive(args.skip(2), next);
            }
        } else {
            law_cli_fps_is_positive(args.skip(1), o);
        }
    }
}

/// One of the three flags.
pub open spec fn is_flag(x: Seq<char>) -> bool {
    x == "--fps"@ || x == "--vsync"@ || x == "--wait"@
}

proof fn lemma_flag_literals()
    ensures
        "--fps"@.len() == 5 && "--fps"@[0] == '-' && "--fps"@[1] == '-',
        "--vsync"@.len() == 7 && "--vsync"@[0] == '-' && "--vsync"@[1] == '-',
        "--wait"@.len() == 6 && "--wait"@[0] == '-' && "--wait"@[1] == '-',
{
    reveal_strlit("--fps");
    reveal_strlit("--vsync");
    reveal_strlit("--wait");
}

/// A flag given as the value of another flag leaves the settings unchanged.
proof fn lemma_flag_as_value(o: CliOptions, flag: Seq<char>, value: Seq<char>)
    requires
        is_flag(flag),
        is_flag(value),
    ensures
        apply_fps_arg(o, value) == o,
        apply_vsync_arg(o, value) == o,
        apply_wait_arg(o, value) == o,
{
    lemma_flag_literals();
    lemma_double_dash_is_no_value(value);
    let l = ascii_lower(value);
    assert(l[0] == '-');
    assert(!is_enable_word(l)) by {
        if l == seq!['1'] { assert(l[0] == '1'); }
        if l == seq!['t', 'r', 'u', 'e'] { assert(l[0] == 't'); }
        if l == seq!['o', 'n'] { assert(l[0] == 'o'); }
        if l == seq!['e', 'n', 'a', 'b', 'l', 'e'] { assert(l[0] == 'e'); }
        if l == seq!['e', 'n', 'a', 'b', 'l', 'e', 'd'] { assert(l[0] == 'e'); }
    }
    assert(!is_disable_word(l)) by {
        if l == seq!['0'] { assert(l[0] == '0'); }
        if l == seq!['f', 'a', 'l', 's', 'e'] { assert(l[0] == 'f'); }
        if l == seq!['o', 'f', 'f'] { assert(l[0] == 'o'); }
        if l == seq!['d', 'i', 's', 'a', 'b', 'l', 'e'] { assert(l[0] == 'd'); }
        if l == seq!['d', 'i', 's', 'a', 'b', 'l', 'e', 'd'] { assert(l[0] == 'd'); }
    }
}

/// Flags for different settings are independent: appending `flag value` to
/// any argument list changes at most the setting of that flag. `--fps`
/// leaves vertical sync and the wait as they were, `--vsync` the frame rate
/// and the wait, `--wait` the frame rate and vertical sync.
pub proof fn law_flags_set_only_their_setting(
    args: Seq<Seq<char>>,
    flag: Seq<char>,
    value: Seq<char>,
    o: CliOptions,
)
    requires
        is_flag(flag),
    ensures
        ({
            let with = cli_from(args + seq![flag, value], o);
            let without = cli_from(args, o);
            &&& flag == "--fps"@ ==> (with.vsync == without.vsync && with.wait_seconds
                == without.wait_seconds)
            &&& flag == "--vsync"@ ==> (with.fps == without.fps && with.wait_seconds
                == without.wait_seconds)
            &&& flag == "--wait"@ ==> (with.fps == without.fps && with.vsync == without.vsync)
        }),
    decreases args.len(),
{
    lemma_flag_literals();
    let tail = seq![flag, value];
    let all = args + tail;
    assert("--fps"@ != "--vsync"@ && "--fps"@ != "--wait"@ && "--vsync"@ != "--wait"@);
    if args.len() == 0 {
        assert(all =~= tail);
        assert(all.skip(2) =~= Seq::<Seq<char>>::empty());
        let next = if flag == "--fps"@ {
            apply_fps_arg(o, value)
        } else if flag == "--vsync"@ {
            apply_vsync_arg(o, value)
        } else {
            apply_wait_arg(o, value)
        };
        assert(cli_from(all.skip(2), next) == next);
        assert(cli_from(all, o) == next);
    } else if is_flag(args[0]) {
        assert(all[0] == args[0]);
        if args.len() >= 2 {
            assert(all[1] == args[1]);
            assert(all.skip(2) =~= args.skip(2) + tail);
            let next = if args[0] == "--fps"@ {
                apply_fps_arg(o, args[1])
            } else if args[0] == "--vsync"@ {
                apply_vsync_arg(o, args[1])
            } else {
                apply_wait_arg(o, args[1])
            };
            law_flags_set_only_their_setting(args.skip(2), flag, value, next);
        } else {
            assert(all[1] == flag);
            lemma_flag_as_value(o, args[0], flag);
            let rest = all.skip(2);
            assert(rest =~= seq![value]);
            if is_flag(value) {
                assert(cli_from(rest, o) == o);
            } else {
                assert(rest.skip(1) =~= Seq::<Seq<char>>::empty());
                assert(cli_from(rest, o) == cli_from(rest.skip(1), o));
            }
        }
    } else {
        assert(all[0] == args[0]);
        assert(all.skip(1) =~= args.skip(1) + tail);
        law_flags_set_only_their_setting(args.skip(1), flag, value, o);
    }
}

} // verus!

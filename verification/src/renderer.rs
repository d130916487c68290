use crate::data::{Data, DataView};
use crate::format_duration::{decimal, digit_char, push_decimal};
use crate::player_info::RepeatState;
use vstd::prelude::*;

verus! {

/// The name of a repeat mode on screen.
pub open spec fn repeat_label_view(s: RepeatState) -> Seq<char> {
    match s {
        RepeatState::Off => seq!['o', 'f', 'f'],
        RepeatState::Track => seq!['t', 'r', 'a', 'c', 'k'],
        RepeatState::Context => seq!['c', 'o', 'n', 't', 'e', 'x', 't'],
    }
}

/// The sign of the playing state on screen: a triangle while playing, two
/// bars while paused.
pub open spec fn play_sign_view(is_playing: bool) -> Seq<char> {
    if is_playing {
        seq!['\u{2bc8}']
    } else {
        seq!['\u{2223}', '\u{2223}']
    }
}

/// A boolean as `{}` prints it.
pub open spec fn bool_view(b: bool) -> Seq<char> {
    if b {
        seq!['t', 'r', 'u', 'e']
    } else {
        seq!['f', 'a', 'l', 's', 'e']
    }
}

/// The lines of the information panel above the progress bar: an empty
/// line, `{sign} {title}`, the authors, an empty line,
/// `repeat: {mode} | shuffle: {bool}`, `device: {name}`, `volume: {v}%`
/// and an empty line.
pub open spec fn info_lines_view(d: DataView) -> Seq<Seq<char>> {
    seq![
        seq![],
        play_sign_view(d.player.is_playing) + seq![' '] + d.track.title,
        d.track.authors,
        seq![],
        seq!['r', 'e', 'p', 'e', 'a', 't', ':', ' '] + repeat_label_view(d.player.repeat_state)
            + seq![' ', '|', ' ', 's', 'h', 'u', 'f', 'f', 'l', 'e', ':', ' '] + bool_view(
            d.player.shuffle_state,
        ),
        seq!['d', 'e', 'v', 'i', 'c', 'e', ':', ' '] + d.player.device_name,
        seq!['v', 'o', 'l', 'u', 'm', 'e', ':', ' '] + decimal(d.player.volume as nat) + seq![
            '%',
        ],
        seq![],
    ]
}

/// The panel shows, line by line: nothing; the playing sign (a triangle
/// while playing, two bars while paused), a space and the title; the
/// authors; nothing; `repeat: ` with the mode's name (`off`, `track` or
/// `context`), ` | shuffle: ` and `true` or `false` after the shuffle state;
/// `device: ` and the device name; `volume: `, the volume in decimal and
/// `%`; nothing.
pub proof fn lemma_info_lines_text(d: DataView)
    ensures
        info_lines_view(d).len() == 8,
        info_lines_view(d)[0] == Seq::<char>::empty(),
        info_lines_view(d)[1] == (if d.player.is_playing {
            seq!['\u{2bc8}']
        } else {
            seq!['\u{2223}', '\u{2223}']
        }) + seq![' '] + d.track.title,
        info_lines_view(d)[2] == d.track.authors,
        info_lines_view(d)[3] == Seq::<char>::empty(),
        info_lines_view(d)[4] == seq!['r', 'e', 'p', 'e', 'a', 't', ':', ' '] + (match d.player.repeat_state {
            RepeatState::Off => seq!['o', 'f', 'f'],
            RepeatState::Track => seq!['t', 'r', 'a', 'c', 'k'],
            RepeatState::Context => seq!['c', 'o', 'n', 't', 'e', 'x', 't'],
        }) + seq![' ', '|', ' ', 's', 'h', 'u', 'f', 'f', 'l', 'e', ':', ' '] + (if d.player.shuffle_state {
            seq!['t', 'r', 'u', 'e']
        } else {
            seq!['f', 'a', 'l', 's', 'e']
        }),
        info_lines_view(d)[5] == seq!['d', 'e', 'v', 'i', 'c', 'e', ':', ' '] + d.player.device_name,
        d.player.volume < 10 ==> info_lines_view(d)[6] == seq!['v', 'o', 'l', 'u', 'm', 'e', ':', ' ', digit_char(d.player.volume as int), '%'],
        d.player.volume == 100 ==> info_lines_view(d)[6] == seq!['v', 'o', 'l', 'u', 'm', 'e', ':', ' ', '1', '0', '0', '%'],
        info_lines_view(d)[7] == Seq::<char>::empty(),
{
    if d.player.volume == 100 {
        reveal_with_fuel(decimal, 3);
        assert(decimal(100) =~= seq!['1', '0', '0']);
    }
    if d.player.volume < 10 {
        assert(decimal(d.player.volume as nat) =~= seq![digit_char(d.player.volume as int)]);
    }
}

/// The name of a repeat mode on screen.
pub fn repeat_label(s: RepeatState) -> (r: &'static str)
    ensures
        r@ == repeat_label_view(s),
{
    match s {
        RepeatState::Off => {
            proof {
                reveal_strlit("off");
            }
            "off"
        },
        RepeatState::Track => {
            proof {
                reveal_strlit("track");
            }
            "track"
        },
        RepeatState::Context => {
            proof {
                reveal_strlit("context");
            }
            "context"
        },
    }
}

/// The sign of the playing state on screen.
pub fn play_sign(is_playing: bool) -> (r: &'static str)
    ensures
        r@ == play_sign_view(is_playing),
{
    if is_playing {
        proof {
            reveal_strlit("\u{2bc8}");
        }
        "\u{2bc8}"
    } else {
        proof {
            reveal_strlit("\u{2223}\u{2223}");
        }
        "\u{2223}\u{2223}"
    }
}

/// A boolean as `{}` prints it.
fn bool_text(b: bool) -> (r: &'static str)
    ensures
        r@ == bool_view(b),
{
    if b {
        proof {
            reveal_strlit("true");
        }
        "true"
    } else {
        proof {
            reveal_strlit("false");
        }
        "false"
    }
}

/// A string with the text of `s`.
fn owned(s: &str) -> (r: String)
    ensures
        r@ == s@,
{
    String::from_str(s)
}

/// The lines of the information panel above the progress bar.
pub fn info_lines(data: &Data) -> (r: Vec<String>)
    ensures
        r@.len() == 8,
        forall|i: int| 0 <= i < 8 ==> #[trigger] r@[i]@ == info_lines_view(data@)[i],
{
    proof {
        reveal_strlit("");
        reveal_strlit(" ");
        reveal_strlit("repeat: ");
        reveal_strlit(" | shuffle: ");
        reveal_strlit("device: ");
        reveal_strlit("volume: ");
        reveal_strlit("%");
    }
    let mut title = owned(play_sign(data.player.is_playing));
    title.append(" ");
    title.append(data.track.title.as_str());

    let mut modes = owned("repeat: ");
    modes.append(repeat_label(data.player.repeat_state));
    modes.append(" | shuffle: ");
    modes.append(bool_text(data.player.shuffle_state));

    let mut device = owned("device: ");
    device.append(data.player.device_name.as_str());

    let mut volume = owned("volume: ");
    push_decimal(&mut volume, data.player.volume as u64);
    volume.append("%");

    let mut r: Vec<String> = Vec::new();
    r.push(owned(""));
    r.push(title);
    r.push(data.track.authors.clone());
    r.push(owned(""));
    r.push(modes);
    r.push(device);
    r.push(volume);
    r.push(owned(""));
    proof {
        let v = info_lines_view(data@);
        assert(r@[0]@ =~= v[0]);
        assert(r@[1]@ =~= v[1]);
        assert(r@[2]@ =~= v[2]);
        assert(r@[3]@ =~= v[3]);
        assert(r@[4]@ =~= v[4]);
        assert(r@[5]@ =~= v[5]);
        assert(r@[6]@ =~= v[6]);
        assert(r@[7]@ =~= v[7]);
    }
    r
}

} // verus!

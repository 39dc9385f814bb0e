//! Locating the pointer from the output of an ordered chain of probe tools. Running
//! the tools is left to the caller; reading their output is done here.
use crate::text::{
    after_prefix, contains_spec, contains_text, parse_i32, parse_i32_spec, split_spec,
    split_text, strip_prefix_text, trim_spec, trim_text, Splitter,
};
use vstd::prelude::*;

verus! {

/// The host platform.
#[derive(Debug, Clone, Copy, PartialEq, Eq, Structural)]
pub enum Platform {
    Linux,
    MacOs,
    Windows,
}

/// A tool that may report the pointer position, with the format of its output.
#[derive(Debug, Clone, Copy, PartialEq, Eq, Structural)]
pub enum PointerProbe {
    /// `xdotool getmouselocation --shell`: lines `X=..` and `Y=..`.
    Xdotool,
    /// `kdotool getmouselocation`: words `x:..` and `y:..`.
    Kdotool,
    /// `ydotool getmouselocation`: two words.
    Ydotool,
    /// `hyprctl cursorpos`: two values separated by a comma.
    Hyprctl,
    /// `slurp -p -f "%x %y"`: two words; the only probe whose `0 0` counts.
    Slurp,
    /// `xinput query-state 2`: lines holding `valuator[0]=` and `valuator[1]=`.
    Xinput,
    /// `osascript` asking for the mouse position: two values separated by `", "`.
    Osascript,
}

/// The standard output of a probe that ran and reported success, as text.
pub struct ProbeOutput {
    pub probe: PointerProbe,
    pub stdout: Vec<char>,
}

/// The probes to try, in order, on a platform; `wayland` tells whether the desktop
/// session is a Wayland one.
pub open spec fn probe_chain_spec(platform: Platform, wayland: bool) -> Seq<PointerProbe> {
    match platform {
        Platform::Linux => if wayland {
            seq![
                PointerProbe::Xdotool,
                PointerProbe::Kdotool,
                PointerProbe::Ydotool,
                PointerProbe::Hyprctl,
                PointerProbe::Slurp,
                PointerProbe::Xinput,
            ]
        } else {
            seq![PointerProbe::Xdotool, PointerProbe::Xinput]
        },
        Platform::MacOs => seq![PointerProbe::Osascript],
        Platform::Windows => Seq::empty(),
    }
}

/// The probes to try, in order.
pub fn probe_chain(platform: Platform, wayland: bool) -> (r: Vec<PointerProbe>)
    ensures
        r@ == probe_chain_spec(platform, wayland),
{
    match platform {
        Platform::Linux => if wayland {
            let r = vec![
                PointerProbe::Xdotool,
                PointerProbe::Kdotool,
                PointerProbe::Ydotool,
                PointerProbe::Hyprctl,
                PointerProbe::Slurp,
                PointerProbe::Xinput,
            ];
            assert(r@ =~= probe_chain_spec(platform, wayland));
            r
        } else {
            let r = vec![PointerProbe::Xdotool, PointerProbe::Xinput];
            assert(r@ =~= probe_chain_spec(platform, wayland));
            r
        },
        Platform::MacOs => {
            let r = vec![PointerProbe::Osascript];
            assert(r@ =~= probe_chain_spec(platform, wayland));
            r
        },
        Platform::Windows => {
            let r: Vec<PointerProbe> = Vec::new();
            assert(r@ =~= probe_chain_spec(platform, wayland));
            r
        },
    }
}

/// A decimal value, or 0 where the text is not one.
pub open spec fn value_or_zero(s: Seq<char>) -> i32 {
    match parse_i32_spec(s) {
        Some(v) => v,
        None => 0,
    }
}

fn read_value(s: &[char]) -> (r: i32)
    ensures
        r == value_or_zero(s@),
{
    match parse_i32(s) {
        Some(v) => v,
        None => 0,
    }
}

/// Coordinates given by keyed pieces: the last piece that starts with `kx` gives x,
/// the last that starts with `ky` gives y, a missing one is 0.
pub open spec fn scan_keyed(pieces: Seq<Seq<char>>, kx: Seq<char>, ky: Seq<char>) -> (i32, i32)
    decreases pieces.len(),
{
    if pieces.len() == 0 {
        (0, 0)
    } else {
        let (x, y) = scan_keyed(pieces.drop_last(), kx, ky);
        let p = pieces.last();
        match after_prefix(p, kx) {
            Some(v) => (value_or_zero(v), y),
            None => match after_prefix(p, ky) {
                Some(v) => (x, value_or_zero(v)),
                None => (x, y),
            },
        }
    }
}

/// The text of a line between its first and second `=`, trimmed.
pub open spec fn value_after_equals(line: Seq<char>) -> Seq<char> {
    let parts = split_spec(Splitter::Equals, line);
    if parts.len() > 1 {
        trim_spec(parts[1])
    } else {
        Seq::empty()
    }
}

/// Coordinates given by `xinput` lines: the last line holding `valuator[0]=` gives
/// x, the last holding `valuator[1]=` gives y.
pub open spec fn scan_valuators(lines: Seq<Seq<char>>) -> (i32, i32)
    decreases lines.len(),
{
    if lines.len() == 0 {
        (0, 0)
    } else {
        let (x, y) = scan_valuators(lines.drop_last());
        let l = lines.last();
        if contains_spec(l, valuator_x()) {
            (value_or_zero(value_after_equals(l)), y)
        } else if contains_spec(l, valuator_y()) {
            (x, value_or_zero(value_after_equals(l)))
        } else {
            (x, y)
        }
    }
}

pub open spec fn valuator_x() -> Seq<char> {
    seq!['v', 'a', 'l', 'u', 'a', 't', 'o', 'r', '[', '0', ']', '=']
}

pub open spec fn valuator_y() -> Seq<char> {
    seq!['v', 'a', 'l', 'u', 'a', 't', 'o', 'r', '[', '1', ']', '=']
}

/// Coordinates given by the first two pieces, each trimmed; none with fewer pieces.
pub open spec fn positional(pieces: Seq<Seq<char>>) -> Option<(i32, i32)> {
    if pieces.len() >= 2 {
        Some((value_or_zero(trim_spec(pieces[0])), value_or_zero(trim_spec(pieces[1]))))
    } else {
        None
    }
}

/// Coordinates given by the first two pieces as they stand; none with fewer pieces.
pub open spec fn positional_untrimmed(pieces: Seq<Seq<char>>) -> Option<(i32, i32)> {
    if pieces.len() >= 2 {
        Some((value_or_zero(pieces[0]), value_or_zero(pieces[1])))
    } else {
        None
    }
}

/// A position, unless it is the origin, which these probes report on failure.
pub open spec fn unless_origin(p: (i32, i32)) -> Option<(i32, i32)> {
    if p.0 != 0 || p.1 != 0 {
        Some(p)
    } else {
        None
    }
}

pub open spec fn nonzero_positional(pieces: Seq<Seq<char>>) -> Option<(i32, i32)> {
    match positional(pieces) {
        Some(p) => unless_origin(p),
        None => None,
    }
}

/// The position that a probe's output gives, if it gives one.
pub open spec fn probe_reading(probe: PointerProbe, out: Seq<char>) -> Option<(i32, i32)> {
    match probe {
        PointerProbe::Xdotool => unless_origin(
            scan_keyed(split_spec(Splitter::Lines, out), seq!['X', '='], seq!['Y', '=']),
        ),
        PointerProbe::Kdotool => unless_origin(
            scan_keyed(
                split_spec(Splitter::Whitespace, out),
                seq!['x', ':'],
                seq!['y', ':'],
            ),
        ),
        PointerProbe::Ydotool => nonzero_positional(split_spec(Splitter::Whitespace, out)),
        PointerProbe::Hyprctl => nonzero_positional(split_spec(Splitter::Comma, trim_spec(out))),
        PointerProbe::Slurp => positional(split_spec(Splitter::Whitespace, out)),
        PointerProbe::Xinput => unless_origin(scan_valuators(split_spec(Splitter::Lines, out))),
        PointerProbe::Osascript => positional_untrimmed(
            split_spec(Splitter::CommaSpace, trim_spec(out)),
        ),
    }
}

fn read_keyed(pieces: &Vec<Vec<char>>, kx: &[char], ky: &[char]) -> (r: (i32, i32))
    ensures
        r == scan_keyed(pieces@.map_values(|p: Vec<char>| p@), kx@, ky@),
{
    let ghost ps = pieces@.map_values(|p: Vec<char>| p@);
    let mut x: i32 = 0;
    let mut y: i32 = 0;
    let mut i: usize = 0;
    while i < pieces.len()
        invariant
            i <= pieces@.len(),
            ps == pieces@.map_values(|p: Vec<char>| p@),
            (x, y) == scan_keyed(ps.take(i as int), kx@, ky@),
        decreases pieces@.len() - i,
    {
        assert(ps.take(i + 1).drop_last() == ps.take(i as int));
        let p = &pieces[i];
        match strip_prefix_text(p, kx) {
            Some(v) => {
                x = read_value(&v);
            },
            None => match strip_prefix_text(p, ky) {
                Some(v) => {
                    y = read_value(&v);
                },
                None => {},
            },
        }
        i += 1;
    }
    assert(ps.take(pieces@.len() as int) == ps);
    (x, y)
}

fn read_after_equals(line: &[char]) -> (r: Vec<char>)
    ensures
        r@ == value_after_equals(line@),
{
    let parts = split_text(line, Splitter::Equals);
    if parts.len() > 1 {
        trim_text(&parts[1])
    } else {
        Vec::new()
    }
}

fn read_valuators(lines: &Vec<Vec<char>>) -> (r: (i32, i32))
    ensures
        r == scan_valuators(lines@.map_values(|p: Vec<char>| p@)),
{
    let ghost ls = lines@.map_values(|p: Vec<char>| p@);
    let vx: [char; 12] = ['v', 'a', 'l', 'u', 'a', 't', 'o', 'r', '[', '0', ']', '='];
    let vy: [char; 12] = ['v', 'a', 'l', 'u', 'a', 't', 'o', 'r', '[', '1', ']', '='];
    assert(vx@ =~= valuator_x());
    assert(vy@ =~= valuator_y());
    let mut x: i32 = 0;
    let mut y: i32 = 0;
    let mut i: usize = 0;
    while i < lines.len()
        invariant
            i <= lines@.len(),
            ls == lines@.map_values(|p: Vec<char>| p@),
            vx@ == valuator_x(),
            vy@ == valuator_y(),
            (x, y) == scan_valuators(ls.take(i as int)),
        decreases lines@.len() - i,
    {
        assert(ls.take(i + 1).drop_last() == ls.take(i as int));
        let l = &lines[i];
        if contains_text(l, &vx) {
            x = read_value(&read_after_equals(l));
        } else if contains_text(l, &vy) {
            y = read_value(&read_after_equals(l));
        }
        i += 1;
    }
    assert(ls.take(lines@.len() as int) == ls);
    (x, y)
}

fn read_positional(pieces: &Vec<Vec<char>>) -> (r: Option<(i32, i32)>)
    ensures
        r == positional(pieces@.map_values(|p: Vec<char>| p@)),
{
    if pieces.len() >= 2 {
        Some((read_value(&trim_text(&pieces[0])), read_value(&trim_text(&pieces[1]))))
    } else {
        None
    }
}

fn keep_unless_origin(p: (i32, i32)) -> (r: Option<(i32, i32)>)
    ensures
        r == unless_origin(p),
{
    if p.0 != 0 || p.1 != 0 {
        Some(p)
    } else {
        None
    }
}

proof fn lemma_pieces_view(v: Vec<Vec<char>>, sp: Seq<Seq<char>>)
    requires
        v@.len() == sp.len(),
        forall|i: int| 0 <= i < v@.len() ==> (#[trigger] v@[i])@ == sp[i],
    ensures
        v@.map_values(|p: Vec<char>| p@) == sp,
{
    assert(v@.map_values(|p: Vec<char>| p@) =~= sp);
}

/// The position that one probe's output gives, if it gives one.
pub fn read_probe(probe: PointerProbe, out: &[char]) -> (r: Option<(i32, i32)>)
    ensures
        r == probe_reading(probe, out@),
{
    match probe {
        PointerProbe::Xdotool => {
            let lines = split_text(out, Splitter::Lines);
            proof {
                lemma_pieces_view(lines, split_spec(Splitter::Lines, out@));
            }
            let kx: [char; 2] = ['X', '='];
            let ky: [char; 2] = ['Y', '='];
            assert(kx@ =~= seq!['X', '=']);
            assert(ky@ =~= seq!['Y', '=']);
            keep_unless_origin(read_keyed(&lines, &kx, &ky))
        },
        PointerProbe::Kdotool => {
            let words = split_text(out, Splitter::Whitespace);
            proof {
                lemma_pieces_view(words, split_spec(Splitter::Whitespace, out@));
            }
            let kx: [char; 2] = ['x', ':'];
            let ky: [char; 2] = ['y', ':'];
            assert(kx@ =~= seq!['x', ':']);
            assert(ky@ =~= seq!['y', ':']);
            keep_unless_origin(read_keyed(&words, &kx, &ky))
        },
        PointerProbe::Ydotool | PointerProbe::Slurp => {
            let words = split_text(out, Splitter::Whitespace);
            proof {
                lemma_pieces_view(words, split_spec(Splitter::Whitespace, out@));
            }
            match read_positional(&words) {
                Some(p) => if matches!(probe, PointerProbe::Slurp) {
                    Some(p)
                } else {
                    keep_unless_origin(p)
                },
                None => None,
            }
        },
        PointerProbe::Hyprctl => {
            let trimmed = trim_text(out);
            let parts = split_text(&trimmed, Splitter::Comma);
            proof {
                lemma_pieces_view(parts, split_spec(Splitter::Comma, trim_spec(out@)));
            }
            match read_positional(&parts) {
                Some(p) => keep_unless_origin(p),
                None => None,
            }
        },
        PointerProbe::Osascript => {
            let trimmed = trim_text(out);
            let parts = split_text(&trimmed, Splitter::CommaSpace);
            proof {
                lemma_pieces_view(parts, split_spec(Splitter::CommaSpace, trim_spec(out@)));
            }
            if parts.len() >= 2 {
                Some((read_value(&parts[0]), read_value(&parts[1])))
            } else {
                None
            }
        },
        PointerProbe::Xinput => {
            let lines = split_text(out, Splitter::Lines);
            proof {
                lemma_pieces_view(lines, split_spec(Splitter::Lines, out@));
            }
            keep_unless_origin(read_valuators(&lines))
        },
    }
}

/// `i` is the first output, in probe order, that gives a position.
pub open spec fn first_reading(outputs: Seq<ProbeOutput>, i: int) -> bool {
    &&& 0 <= i < outputs.len()
    &&& probe_reading(outputs[i].probe, outputs[i].stdout@) is Some
    &&& forall|j: int|
        0 <= j < i ==> probe_reading((#[trigger] outputs[j]).probe, outputs[j].stdout@) is None
}

/// The pointer position given by the first probe output, in order, that gives one;
/// `None` when none does.
pub fn get_mouse_position(outputs: &Vec<ProbeOutput>) -> (r: Option<(i32, i32)>)
    ensures
        r matches Some(p) ==> exists|i: int|
            first_reading(outputs@, i) && probe_reading(outputs@[i].probe, outputs@[i].stdout@)
                == Some(p),
        r is None ==> forall|j: int|
            0 <= j < outputs@.len() ==> probe_reading(
                (#[trigger] outputs@[j]).probe,
                outputs@[j].stdout@,
            ) is None,
{
    let mut i: usize = 0;
    while i < outputs.len()
        invariant
            i <= outputs@.len(),
            forall|j: int|
                0 <= j < i ==> probe_reading(
                    (#[trigger] outputs@[j]).probe,
                    outputs@[j].stdout@,
                ) is None,
        decreases outputs@.len() - i,
    {
        let o = &outputs[i];
        match read_probe(o.probe, o.stdout.as_slice()) {
            Some(p) => {
                assert(first_reading(outputs@, i as int));
                return Some(p);
            },
            None => {},
        }
        i += 1;
    }
    None
}

} // verus!

//! The compositor: zip the rendered image's lines with the resolved facts
//! into one aligned two-column report, styling each fact by its kind.

use vstd::prelude::*;

use crate::cli::{label_spec, Info};
use crate::strutil::{digit_char, digit_str, spaces, space_string};

verus! {

/// A label padded with spaces to at least nine characters, left-justified.
pub open spec fn pad9(s: Seq<char>) -> Seq<char> {
    if s.len() >= 9 {
        s
    } else {
        s + spaces((9 - s.len()) as nat)
    }
}

/// The styled cell one fact prints: the identity line in the bold color one
/// past the accent, palette lines verbatim, separators as nothing, and every
/// other kind as a bold accent-colored padded label followed by the value.
pub open spec fn styled_spec(kind: Info, value: Seq<char>, col: u8, show_colons: bool) -> Seq<
    char,
> {
    if kind is UserAtHostname {
        "\u{1b}[1;3"@ + seq![digit_char((((col + 1) % 8) as nat))] + "m"@ + value + "\u{1b}[0m"@
    } else if kind is Colors1 || kind is Colors2 {
        value
    } else if kind is Seperator {
        Seq::empty()
    } else {
        let label = label_spec(kind) + (if show_colons {
            ":"@
        } else {
            Seq::<char>::empty()
        });
        "\u{1b}[1;3"@ + seq![digit_char(col as nat)] + "m"@ + pad9(label) + "\u{1b}[0m "@ + value
    }
}

/// Style one fact's cell.
pub fn styled_fact(kind: Info, value: &str, col: u8, show_colons: bool) -> (r: String)
    requires
        col <= 7,
    ensures
        r@ == styled_spec(kind, value@, col, show_colons),
{
    match kind {
        Info::UserAtHostname => {
            let mut s = String::from_str("\u{1b}[1;3");
            s.append(digit_str(((col + 1) % 8) as u64));
            s.append("m");
            s.append(value);
            s.append("\u{1b}[0m");
            proof {
                assert(s@ =~= styled_spec(kind, value@, col, show_colons));
            }
            s
        },
        Info::Colors1 => String::from_str(value),
        Info::Colors2 => String::from_str(value),
        Info::Seperator => String::new(),
        _ => {
            let mut label = String::from_str(kind.label());
            if show_colons {
                label.append(":");
            }
            let ll = label.unicode_len();
            if ll < 9 {
                label.append(space_string(9 - ll).as_str());
            }
            let mut s = String::from_str("\u{1b}[1;3");
            s.append(digit_str(col as u64));
            s.append("m");
            s.append(label.as_str());
            s.append("\u{1b}[0m ");
            s.append(value);
            proof {
                assert(s@ =~= styled_spec(kind, value@, col, show_colons));
            }
            s
        },
    }
}

/// The view of a resolved fact list: each kind with its value's characters.
pub open spec fn infos_view(v: Seq<(Info, String)>) -> Seq<(Info, Seq<char>)> {
    Seq::new(v.len(), |i: int| (v[i].0, v[i].1@))
}

/// One line of the report: the image cell (or padding spaces where the image
/// has run out), the gap, and the styled fact cell (or nothing where the
/// facts have run out).
pub open spec fn report_line(
    img: Seq<Seq<char>>,
    infos: Seq<(Info, Seq<char>)>,
    i: int,
    max_width: nat,
    gap: nat,
    col: u8,
    show_colons: bool,
) -> Seq<char> {
    (if i < img.len() {
        img[i]
    } else {
        spaces(max_width)
    }) + spaces(gap) + (if i < infos.len() {
        styled_spec(infos[i].0, infos[i].1, col, show_colons)
    } else {
        Seq::<char>::empty()
    })
}

/// Zip image lines and facts into the report: one line per index up to the
/// longer of the two columns — their count is exactly the maximum of the two
/// lengths, the empty/empty case giving no lines at all.
pub fn compose(
    img_lines: &Vec<String>,
    infos: &Vec<(Info, String)>,
    max_width: u8,
    gap: u8,
    col: u8,
    show_colons: bool,
) -> (r: Vec<String>)
    requires
        col <= 7,
    ensures
        r@.len() == if img_lines@.len() > infos@.len() {
            img_lines@.len()
        } else {
            infos@.len()
        },
        forall|i: int|
            0 <= i < r@.len() ==> (#[trigger] r@[i])@ == report_line(
                crate::strutil::views_of(img_lines@),
                infos_view(infos@),
                i,
                max_width as nat,
                gap as nat,
                col,
                show_colons,
            ),
{
    let n = if img_lines.len() > infos.len() {
        img_lines.len()
    } else {
        infos.len()
    };
    let mut r: Vec<String> = Vec::new();
    let mut i: usize = 0;
    while i < n
        invariant
            col <= 7,
            i <= n,
            n == if img_lines@.len() > infos@.len() {
                img_lines@.len()
            } else {
                infos@.len()
            },
            r@.len() == i,
            forall|j: int|
                0 <= j < i ==> (#[trigger] r@[j])@ == report_line(
                    crate::strutil::views_of(img_lines@),
                    infos_view(infos@),
                    j,
                    max_width as nat,
                    gap as nat,
                    col,
                    show_colons,
                ),
        decreases n - i,
    {
        let mut line = if i < img_lines.len() {
            img_lines[i].clone()
        } else {
            space_string(max_width as usize)
        };
        line.append(space_string(gap as usize).as_str());
        if i < infos.len() {
            let styled = styled_fact(infos[i].0, infos[i].1.as_str(), col, show_colons);
            line.append(styled.as_str());
        }
        proof {
            assert(line@ =~= report_line(
                crate::strutil::views_of(img_lines@),
                infos_view(infos@),
                i as int,
                max_width as nat,
                gap as nat,
                col,
                show_colons,
            ));
        }
        r.push(line);
        i = i + 1;
    }
    r
}

} // verus!

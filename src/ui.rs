//! Screen contents of each menu: a header for the first row, drawn only
//! when a screen is entered, and the live second row.
use vstd::prelude::*;
use crate::profile::{CurvePoint, Profile, Profiles, NAME_LEN, POINT_COUNT, SLOT_COUNT};

verus! {

/// Characters offered by the name editor: lowercase letters, then 1 to 9, then 0.
pub const ALPHABET_LEN: u8 = 36;

/// What to show: `header` is `Some` when the screen must be cleared and its
/// first row redrawn; `line` is the second row; `in_range` is the flag the
/// screen reports: on a selection or value screen, whether the rotary
/// position names one of its entries; the main menu and the running screen
/// always report `false`.
#[derive(Clone, Debug, PartialEq, Eq)]
pub struct Screen {
    pub header: Option<Vec<char>>,
    pub line: Vec<char>,
    pub in_range: bool,
}

pub open spec fn digit_char(d: nat) -> char {
    ((d % 10) + 48) as char
}

/// Decimal digits of `n`, most significant first.
pub open spec fn decimal(n: nat) -> Seq<char>
    decreases n,
{
    if n < 10 {
        seq![digit_char(n)]
    } else {
        decimal(n / 10).push(digit_char(n % 10))
    }
}

/// The name-editor character at `i`.
pub open spec fn alphabet_char(i: nat) -> u8 {
    if i < 26 {
        (97 + i) as u8
    } else if i < 35 {
        (49 + (i - 26)) as u8
    } else {
        48
    }
}

/// A name shown as text.
pub open spec fn name_text(name: Seq<u8>) -> Seq<char> {
    name.map_values(|b: u8| b as char)
}

/// A flag shown as text.
pub open spec fn bool_text(b: bool) -> Seq<char> {
    if b { seq!['t', 'r', 'u', 'e'] } else { seq!['f', 'a', 'l', 's', 'e'] }
}

/// The second row of a no/yes question, with the mark on the chosen answer;
/// empty for any other position.
pub open spec fn sure_line(counter: u8) -> Seq<char> {
    if counter == 0 {
        seq!['S', 'U', 'R', 'E', '?', ':', ' ', '*', ' ', 'N', 'O', ' ', '|', ' ', 'Y', 'E', 'S']
    } else if counter == 1 {
        seq!['S', 'U', 'R', 'E', '?', ':', ' ', 'N', 'O', ' ', '|', ' ', '*', ' ', 'Y', 'E', 'S']
    } else {
        Seq::empty()
    }
}

pub open spec fn header_if(cont: bool, h: Seq<char>) -> Option<Seq<char>> {
    if cont { None } else { Some(h) }
}

pub open spec fn header_view(h: Option<Vec<char>>) -> Option<Seq<char>> {
    match h {
        Some(v) => Some(v@),
        None => None,
    }
}

/// A screen as the contracts see it: header, second row, in-range flag.
pub type ScreenView = (Option<Seq<char>>, Seq<char>, bool);

impl View for Screen {
    type V = ScreenView;

    open spec fn view(&self) -> ScreenView {
        (header_view(self.header), self.line@, self.in_range)
    }
}

/// Appends the decimal digits of `n`.
pub fn push_decimal(out: &mut Vec<char>, n: u64)
    ensures
        final(out)@ == old(out)@ + decimal(n as nat),
    decreases n,
{
    if n >= 10 {
        push_decimal(out, n / 10);
    }
    let d: u8 = (n % 10) as u8;
    out.push((d + 48) as char);
    proof {
        assert(decimal(n as nat) == if n < 10 {
            seq![digit_char(n as nat)]
        } else {
            decimal((n / 10) as nat).push(digit_char((n % 10) as nat))
        });
    }
}

/// Appends all of `s`.
pub fn push_all(out: &mut Vec<char>, s: &Vec<char>)
    ensures
        final(out)@ == old(out)@ + s@,
{
    let ghost start = out@;
    let mut i: usize = 0;
    while i < s.len()
        invariant
            i <= s@.len(),
            out@ == start + s@.subrange(0, i as int),
        decreases s.len() - i,
    {
        out.push(s[i]);
        proof {
            assert(s@.subrange(0, i + 1) == s@.subrange(0, i as int).push(s@[i as int]));
        }
        i = i + 1;
    }
    proof {
        assert(s@.subrange(0, s@.len() as int) == s@);
    }
}

/// Appends a profile name.
pub fn push_name(out: &mut Vec<char>, name: &[u8; 6])
    ensures
        final(out)@ == old(out)@ + name_text(name@),
{
    let ghost start = out@;
    let mut i: usize = 0;
    while i < NAME_LEN
        invariant
            i <= NAME_LEN,
            name@.len() == NAME_LEN,
            out@ == start + name_text(name@.subrange(0, i as int)),
        decreases NAME_LEN - i,
    {
        out.push(name[i] as char);
        proof {
            assert(name@.subrange(0, i + 1) == name@.subrange(0, i as int).push(name@[i as int]));
            assert(name_text(name@.subrange(0, i + 1)) == name_text(name@.subrange(0, i as int)).push(
                name@[i as int] as char,
            ));
        }
        i = i + 1;
    }
    proof {
        assert(name@.subrange(0, NAME_LEN as int) == name@);
    }
}

pub fn bool_word(b: bool) -> (r: Vec<char>)
    ensures
        r@ == bool_text(b),
{
    if b { vec!['t', 'r', 'u', 'e'] } else { vec!['f', 'a', 'l', 's', 'e'] }
}

pub fn sure_text(counter: u8) -> (r: Vec<char>)
    ensures
        r@ == sure_line(counter),
{
    if counter == 0 {
        vec!['S', 'U', 'R', 'E', '?', ':', ' ', '*', ' ', 'N', 'O', ' ', '|', ' ', 'Y', 'E', 'S']
    } else if counter == 1 {
        vec!['S', 'U', 'R', 'E', '?', ':', ' ', 'N', 'O', ' ', '|', ' ', '*', ' ', 'Y', 'E', 'S']
    } else {
        Vec::new()
    }
}

/// The name-editor character at `index`, if the index is in the alphabet.
pub fn name_character(index: u8) -> (r: Option<u8>)
    ensures
        index < ALPHABET_LEN ==> r == Some(alphabet_char(index as nat)),
        index >= ALPHABET_LEN ==> r is None,
{
    if index < 26 {
        Some(97 + index)
    } else if index < 35 {
        Some(49 + (index - 26))
    } else if index == 35 {
        Some(48)
    } else {
        None
    }
}

fn header(cont: bool, h: Vec<char>) -> (r: Option<Vec<char>>)
    ensures
        header_view(r) == header_if(cont, h@),
{
    if cont { None } else { Some(h) }
}

/// Appends the characters of a fixed piece of text.
fn push_text(out: &mut Vec<char>, s: Vec<char>)
    ensures
        final(out)@ == old(out)@ + s@,
{
    push_all(out, &s);
}

/// The screen that `main_menu` shows.
pub open spec fn main_menu_view(temp: u16, counter: u8, cont: bool) -> ScreenView {
    (header_if(cont, seq!['T', 'E', 'M', 'P', ':', ' '] + decimal((temp) as nat)), main_line(counter), false)
}

/// The main menu's second row.
pub open spec fn main_line(counter: u8) -> Seq<char> {
    if counter == 0 {
        seq!['*', '0', ':', ' ', 'H', 'E', 'A', 'T', ' ', '1', ':', 'E', 'D', 'I', 'T', ' ']
    } else if counter == 1 {
        seq!['0', ':', ' ', 'H', 'E', 'A', 'T', ' ', '*', '1', ':', 'E', 'D', 'I', 'T', ' ']
    } else if counter == 2 {
        seq!['1', ':', 'E', 'D', 'I', 'T', ' ', '*', '2', ':', 'C', 'O', 'N', 'F', 'I', 'G']
    } else {
        Seq::empty()
    }
}

/// Main menu: the live temperature, and heat (0) or edit (1).
pub fn main_menu(temp: u16, counter: u8, cont: bool) -> (r: Screen)
    ensures
        r@ == main_menu_view(temp, counter, cont),
{
    let mut h: Vec<char> = vec!['T', 'E', 'M', 'P', ':', ' '];
    push_decimal(&mut h, (temp) as u64);
    let line: Vec<char> = if counter == 0 {
        let l: Vec<char> = vec!['*', '0', ':', ' ', 'H', 'E', 'A', 'T', ' ', '1', ':', 'E', 'D', 'I', 'T', ' '];
        l
    } else if counter == 1 {
        let l: Vec<char> = vec!['0', ':', ' ', 'H', 'E', 'A', 'T', ' ', '*', '1', ':', 'E', 'D', 'I', 'T', ' '];
        l
    } else if counter == 2 {
        let l: Vec<char> = vec!['1', ':', 'E', 'D', 'I', 'T', ' ', '*', '2', ':', 'C', 'O', 'N', 'F', 'I', 'G'];
        l
    } else {
        Vec::new()
    };
    Screen { header: header(cont, h), line, in_range: false }
}

/// A slot and the name of its profile.
pub open spec fn slot_line(p: u8, prof: Profile) -> Seq<char> {
    seq!['*'] + decimal((p) as nat) + seq![':', ' '] + name_text((prof.name)@)
}

fn slot_text(p: u8, prof: &Profile) -> (r: Vec<char>)
    ensures
        r@ == slot_line(p, *prof),
{
    let mut line: Vec<char> = vec!['*'];
    push_decimal(&mut line, (p) as u64);
    push_text(&mut line, vec![':', ' ']);
    push_name(&mut line, &prof.name);
    proof {
        assert(line@ =~= slot_line(p, *prof));
    }
    line
}

/// The screen that `heat_menu` shows.
pub open spec fn heat_menu_view(counter: u8, profiles: Profiles, cont: bool) -> ScreenView {
    (header_if(cont, seq!['C', 'H', 'O', 'O', 'S', 'E', ' ', 'P', 'R', 'O', 'F', ':']), run_slot_line(counter, profiles), (counter as int) < SLOT_COUNT && profiles.profiles[counter as int] is Some)
}

/// The run selection's second row.
pub open spec fn run_slot_line(counter: u8, profiles: Profiles) -> Seq<char> {
    if (counter as int) < SLOT_COUNT && profiles.profiles[counter as int] is Some {
        slot_line(counter, profiles.profiles[counter as int]->Some_0)
    } else {
        seq!['*', ' ', 'G', 'O', ' ', 'B', 'A', 'C', 'K', '.']
    }
}

/// Run selection: the profile in the highlighted slot, or a way back where
/// the slot is empty or out of range.
pub fn heat_menu(counter: u8, profiles: &Profiles, cont: bool) -> (r: Screen)
    ensures
        r@ == heat_menu_view(counter, *profiles, cont),
{
    let mut h: Vec<char> = vec!['C', 'H', 'O', 'O', 'S', 'E', ' ', 'P', 'R', 'O', 'F', ':'];
    match profiles.get(counter) {
        Some(prof) => Screen { header: header(cont, h), line: slot_text(counter, &prof), in_range: true },
        None => Screen { header: header(cont, h), line: vec!['*', ' ', 'G', 'O', ' ', 'B', 'A', 'C', 'K', '.'], in_range: false },
    }
}

/// The screen that `start_heat_confirm_menu` shows.
pub open spec fn start_heat_confirm_menu_view(counter: u8, profile: Profile, cont: bool) -> ScreenView {
    (header_if(cont, seq!['P', 'R', 'O', 'F', 'I', 'L', 'E', ' '] + name_text((profile.name)@) + seq![':']), sure_line(counter), counter < 2)
}

/// Confirmation before a run starts.
pub fn start_heat_confirm_menu(counter: u8, profile: &Profile, cont: bool) -> (r: Screen)
    ensures
        r@ == start_heat_confirm_menu_view(counter, *profile, cont),
{
    let mut h: Vec<char> = vec!['P', 'R', 'O', 'F', 'I', 'L', 'E', ' '];
    push_name(&mut h, &profile.name);
    push_text(&mut h, vec![':']);
    Screen { header: header(cont, h), line: sure_text(counter), in_range: counter < 2 }
}

/// The screen that `heating_menu` shows.
pub open spec fn heating_menu_view(counter: u8, temp: u16, profile: Profile, time_left: u64, cont: bool) -> ScreenView {
    (header_if(cont, seq!['R', 'U', 'N', ':', ' '] + name_text((profile.name)@)), decimal((temp) as nat) + seq!['C', ',', ' '] + decimal((time_left) as nat) + seq!['L', 'E', 'F', 'T'], false)
}

/// The running screen: live temperature and seconds left.
pub fn heating_menu(counter: u8, temp: u16, profile: &Profile, time_left: u64, cont: bool) -> (r: Screen)
    ensures
        r@ == heating_menu_view(counter, temp, *profile, time_left, cont),
{
    let mut h: Vec<char> = vec!['R', 'U', 'N', ':', ' '];
    push_name(&mut h, &profile.name);
    let mut line: Vec<char> = Vec::new();
    push_decimal(&mut line, (temp) as u64);
    push_text(&mut line, vec!['C', ',', ' ']);
    push_decimal(&mut line, (time_left) as u64);
    push_text(&mut line, vec!['L', 'E', 'F', 'T']);
    proof {
        assert(line@ =~= decimal((temp) as nat) + seq!['C', ',', ' '] + decimal((time_left) as nat) + seq!['L', 'E', 'F', 'T']);
    }
    Screen { header: header(cont, h), line, in_range: false }
}

/// The screen that `cancel_heat_menu` shows.
pub open spec fn cancel_heat_menu_view(counter: u8, time_left: u64, cont: bool) -> ScreenView {
    (header_if(cont, seq!['C', 'A', 'N', 'C', 'E', 'L', '?']), sure_line(counter), counter < 2)
}

/// Confirmation before a run is cancelled.
pub fn cancel_heat_menu(counter: u8, time_left: u64, cont: bool) -> (r: Screen)
    ensures
        r@ == cancel_heat_menu_view(counter, time_left, cont),
{
    let mut h: Vec<char> = vec!['C', 'A', 'N', 'C', 'E', 'L', '?'];
    Screen { header: header(cont, h), line: sure_text(counter), in_range: counter < 2 }
}

/// The screen that `select_edit_profile_menu` shows.
pub open spec fn select_edit_profile_menu_view(counter: u8, profiles: Profiles, cont: bool) -> ScreenView {
    (header_if(cont, seq!['E', 'D', 'I', 'T', ' ', 'P', 'R', 'O', 'F', ':']), edit_slot_line(counter, profiles), (counter as int) < SLOT_COUNT)
}

/// The edit selection's second row.
pub open spec fn edit_slot_line(counter: u8, profiles: Profiles) -> Seq<char> {
    if (counter as int) >= SLOT_COUNT {
        seq!['*', 'G', 'O', ' ', 'B', 'A', 'C', 'K', '.']
    } else if profiles.profiles[counter as int] is Some {
        slot_line(counter, profiles.profiles[counter as int]->Some_0)
    } else {
        seq!['*', ' ', '<', 'E', 'M', 'P', 'T', 'Y', ' ', 'S', 'L', 'O', 'T', '>']
    }
}

/// Slot selection for editing: a profile, an empty slot, or a way back.
pub fn select_edit_profile_menu(counter: u8, profiles: &Profiles, cont: bool) -> (r: Screen)
    ensures
        r@ == select_edit_profile_menu_view(counter, *profiles, cont),
{
    let mut h: Vec<char> = vec!['E', 'D', 'I', 'T', ' ', 'P', 'R', 'O', 'F', ':'];
    if counter as usize >= SLOT_COUNT {
        return Screen { header: header(cont, h), line: vec!['*', 'G', 'O', ' ', 'B', 'A', 'C', 'K', '.'], in_range: false };
    }
    match profiles.get(counter) {
        Some(prof) => Screen { header: header(cont, h), line: slot_text(counter, &prof), in_range: true },
        None => Screen { header: header(cont, h), line: vec!['*', ' ', '<', 'E', 'M', 'P', 'T', 'Y', ' ', 'S', 'L', 'O', 'T', '>'], in_range: true },
    }
}

/// The screen that `edit_profile_menu` shows.
pub open spec fn edit_profile_menu_view(counter: u8, profile: Profile, cont: bool) -> ScreenView {
    (header_if(cont, seq!['E', 'D', 'I', 'T', ' '] + name_text((profile.name)@) + seq![':']), element_line(counter), counter < 4)
}

/// The element selection's second row; empty past the last entry.
pub open spec fn element_line(counter: u8) -> Seq<char> {
    if counter == 0 {
        seq!['*', '0', ':', 'N', 'A', 'M', 'E', ' ', '1', ':', 'T', 'E', 'M', 'P']
    } else if counter == 1 {
        seq!['*', '1', ':', 'T', 'E', 'M', 'P', ' ', '2', ':', 'S', 'A', 'V', 'E']
    } else if counter == 2 {
        seq!['*', '2', ':', 'S', 'A', 'V', 'E', ' ', '3', ':', 'E', 'X', 'I', 'T']
    } else if counter == 3 {
        seq!['*', '3', ':', 'E', 'X', 'I', 'T', ' ', '0', ':', 'N', 'A', 'M', 'E']
    } else {
        Seq::empty()
    }
}

/// What to edit in a profile: name (0), points (1), save (2), exit (3).
pub fn edit_profile_menu(counter: u8, profile: &Profile, cont: bool) -> (r: Screen)
    ensures
        r@ == edit_profile_menu_view(counter, *profile, cont),
{
    let mut h: Vec<char> = vec!['E', 'D', 'I', 'T', ' '];
    push_name(&mut h, &profile.name);
    push_text(&mut h, vec![':']);
    let line: Vec<char> = if counter == 0 {
        let l: Vec<char> = vec!['*', '0', ':', 'N', 'A', 'M', 'E', ' ', '1', ':', 'T', 'E', 'M', 'P'];
        l
    } else if counter == 1 {
        let l: Vec<char> = vec!['*', '1', ':', 'T', 'E', 'M', 'P', ' ', '2', ':', 'S', 'A', 'V', 'E'];
        l
    } else if counter == 2 {
        let l: Vec<char> = vec!['*', '2', ':', 'S', 'A', 'V', 'E', ' ', '3', ':', 'E', 'X', 'I', 'T'];
        l
    } else if counter == 3 {
        let l: Vec<char> = vec!['*', '3', ':', 'E', 'X', 'I', 'T', ' ', '0', ':', 'N', 'A', 'M', 'E'];
        l
    } else {
        Vec::new()
    };
    Screen { header: header(cont, h), line, in_range: counter < 4 }
}

/// The screen that `edit_profile_name_menu` shows.
pub open spec fn edit_profile_name_menu_view(counter: u8, words: [u8; 6], idx: u8, cont: bool) -> ScreenView {
    (header_if(cont, seq!['N', 'A', 'M', 'E', ' ', 'E', 'D', 'I', 'T', ' '] + name_text((words)@) + seq![':']), name_preview(words@, counter, idx), counter < ALPHABET_LEN)
}

/// The name as it would read with the highlighted character at the cursor;
/// empty where the position is past the alphabet.
pub open spec fn name_preview(words: Seq<u8>, counter: u8, idx: u8) -> Seq<char> {
    if counter >= ALPHABET_LEN {
        Seq::empty()
    } else if (idx as int) < NAME_LEN {
        name_text(words.update(idx as int, alphabet_char(counter as nat)))
    } else {
        name_text(words)
    }
}

/// Name editor: the name with the highlighted character at cursor `idx`.
pub fn edit_profile_name_menu(counter: u8, words: &[u8; 6], idx: u8, cont: bool) -> (r: Screen)
    ensures
        r@ == edit_profile_name_menu_view(counter, *words, idx, cont),
{
    let mut h: Vec<char> = vec!['N', 'A', 'M', 'E', ' ', 'E', 'D', 'I', 'T', ' '];
    push_name(&mut h, &words);
    push_text(&mut h, vec![':']);
    let mut line: Vec<char> = Vec::new();
    if let Some(c) = name_character(counter) {
        let mut shown = *words;
        if (idx as usize) < NAME_LEN {
            shown[idx as usize] = c;
        }
        push_name(&mut line, &shown);
    }
    proof {
        assert(line@ =~= name_preview(words@, counter, idx));
    }
    Screen { header: header(cont, h), line, in_range: counter < ALPHABET_LEN }
}

/// The screen that `edit_profile_points_select_menu` shows.
pub open spec fn edit_profile_points_select_menu_view(counter: u8, points: [CurvePoint; 6], cont: bool) -> ScreenView {
    (header_if(cont, seq!['P', 'O', 'I', 'N', 'T', ' ', 'S', 'E', 'L', 'E', 'C', 'T']), point_select_line(counter, points), (counter as int) <= POINT_COUNT)
}

/// A point's index, temperature, time and disabled flag.
pub open spec fn point_line(i: u8, p: CurvePoint) -> Seq<char> {
    seq!['*'] + decimal((i) as nat) + seq![':', ' '] + decimal((p.temp) as nat) + seq![' '] + decimal((p.time_seconds) as nat) + seq![' '] + bool_text(p.disabled)
}

/// The point selection's second row.
pub open spec fn point_select_line(counter: u8, points: [CurvePoint; 6]) -> Seq<char> {
    if (counter as int) < POINT_COUNT {
        point_line(counter, points[counter as int])
    } else if counter as int == POINT_COUNT {
        seq!['*', 'R', 'E', 'T', 'U', 'R', 'N']
    } else {
        Seq::empty()
    }
}

/// Point selection: a point's temperature, time and disabled flag, or return (6).
pub fn edit_profile_points_select_menu(counter: u8, points: &[CurvePoint; 6], cont: bool) -> (r: Screen)
    ensures
        r@ == edit_profile_points_select_menu_view(counter, *points, cont),
{
    let mut h: Vec<char> = vec!['P', 'O', 'I', 'N', 'T', ' ', 'S', 'E', 'L', 'E', 'C', 'T'];
    if (counter as usize) < POINT_COUNT {
        let p = points[counter as usize];
        let mut line: Vec<char> = vec!['*'];
        push_decimal(&mut line, (counter) as u64);
        push_text(&mut line, vec![':', ' ']);
        push_decimal(&mut line, (p.temp) as u64);
        push_text(&mut line, vec![' ']);
        push_decimal(&mut line, (p.time_seconds) as u64);
        push_text(&mut line, vec![' ']);
        let w = bool_word(p.disabled);
        push_all(&mut line, &w);
        proof {
            assert(line@ =~= point_line(counter, p));
        }
        Screen { header: header(cont, h), line, in_range: true }
    } else if counter as usize == POINT_COUNT {
        Screen { header: header(cont, h), line: vec!['*', 'R', 'E', 'T', 'U', 'R', 'N'], in_range: true }
    } else {
        Screen { header: header(cont, h), line: Vec::new(), in_range: false }
    }
}

/// The screen that `edit_profile_point_edit_select_menu` shows.
pub open spec fn edit_profile_point_edit_select_menu_view(counter: u8, point: CurvePoint, idx: u8, cont: bool) -> ScreenView {
    (header_if(cont, seq!['P', 'O', 'I', 'N', 'T', ' '] + decimal((idx) as nat)), field_line(counter, point), counter < 4)
}

/// The field selection's second row; empty past the last entry.
pub open spec fn field_line(counter: u8, point: CurvePoint) -> Seq<char> {
    if counter == 0 {
        seq!['*', '0', '1', ':', ' ', 'T', 'E', 'M', 'P', ' '] + decimal((point.temp) as nat)
    } else if counter == 1 {
        seq!['*', '0', '2', ':', ' ', 'T', 'I', 'M', 'E', ' '] + decimal((point.time_seconds) as nat)
    } else if counter == 2 {
        seq!['*', '0', '3', ':', ' ', 'D', 'I', 'S', 'A', 'B', 'L', 'E', 'D', ' '] + bool_text(point.disabled)
    } else if counter == 3 {
        seq!['*', '0', '4', ':', ' ', 'G', 'O', ' ', 'B', 'A', 'C', 'K']
    } else {
        Seq::empty()
    }
}

/// Field selection for point `idx`: temperature (0), time (1), disabled (2), back (3).
pub fn edit_profile_point_edit_select_menu(counter: u8, point: &CurvePoint, idx: u8, cont: bool) -> (r: Screen)
    ensures
        r@ == edit_profile_point_edit_select_menu_view(counter, *point, idx, cont),
{
    let mut h: Vec<char> = vec!['P', 'O', 'I', 'N', 'T', ' '];
    push_decimal(&mut h, (idx) as u64);
    let line: Vec<char> = if counter == 0 {
        let mut l: Vec<char> = vec!['*', '0', '1', ':', ' ', 'T', 'E', 'M', 'P', ' '];
        push_decimal(&mut l, (point.temp) as u64);
        l
    } else if counter == 1 {
        let mut l: Vec<char> = vec!['*', '0', '2', ':', ' ', 'T', 'I', 'M', 'E', ' '];
        push_decimal(&mut l, (point.time_seconds) as u64);
        l
    } else if counter == 2 {
        let mut l: Vec<char> = vec!['*', '0', '3', ':', ' ', 'D', 'I', 'S', 'A', 'B', 'L', 'E', 'D', ' '];
        let w = bool_word(point.disabled);
        push_all(&mut l, &w);
        l
    } else if counter == 3 {
        let l: Vec<char> = vec!['*', '0', '4', ':', ' ', 'G', 'O', ' ', 'B', 'A', 'C', 'K'];
        l
    } else {
        Vec::new()
    };
    proof {
        assert(line@ =~= field_line(counter, *point));
    }
    Screen { header: header(cont, h), line, in_range: counter < 4 }
}

/// The screen that `edit_profile_point_edit_temp_menu` shows.
pub open spec fn edit_profile_point_edit_temp_menu_view(counter: u8, point: CurvePoint, idx: u8, cont: bool) -> ScreenView {
    (header_if(cont, seq!['P', 'T', '-'] + decimal((idx) as nat) + seq![',', ' ', 'T', 'E', 'M', 'P', ' '] + decimal((point.temp) as nat)), (if counter == 255 { Seq::empty() } else { decimal((counter) as nat) + seq![' ', 'D', 'E', 'G', ' ', 'C', 'E', 'L'] }), counter != 255)
}

/// Temperature entry for point `idx`: the rotary position is the new value.
pub fn edit_profile_point_edit_temp_menu(counter: u8, point: &CurvePoint, idx: u8, cont: bool) -> (r: Screen)
    ensures
        r@ == edit_profile_point_edit_temp_menu_view(counter, *point, idx, cont),
{
    let mut h: Vec<char> = vec!['P', 'T', '-'];
    push_decimal(&mut h, (idx) as u64);
    push_text(&mut h, vec![',', ' ', 'T', 'E', 'M', 'P', ' ']);
    push_decimal(&mut h, (point.temp) as u64);
    let line: Vec<char> = if counter == 255 {
        Vec::new()
    } else {
        let mut l: Vec<char> = Vec::new();
        push_decimal(&mut l, (counter) as u64);
        push_text(&mut l, vec![' ', 'D', 'E', 'G', ' ', 'C', 'E', 'L']);
        l
    };
    proof {
        assert(line@ =~= (if counter == 255 { Seq::empty() } else { decimal((counter) as nat) + seq![' ', 'D', 'E', 'G', ' ', 'C', 'E', 'L'] }));
    }
    Screen { header: header(cont, h), line, in_range: counter != 255 }
}

/// The screen that `edit_profile_point_edit_time_menu` shows.
pub open spec fn edit_profile_point_edit_time_menu_view(counter: u8, point: CurvePoint, idx: u8, cont: bool) -> ScreenView {
    (header_if(cont, seq!['P', 'T', '-'] + decimal((idx) as nat) + seq![',', ' ', 'T', 'I', 'M', 'E', ' '] + decimal((point.time_seconds) as nat)), (if counter == 255 { Seq::empty() } else { decimal((counter) as nat) + seq![' ', 'S', 'E', 'C', 'O', 'N', 'D', 'S'] }), counter != 255)
}

/// Time entry for point `idx`: the rotary position is the new value.
pub fn edit_profile_point_edit_time_menu(counter: u8, point: &CurvePoint, idx: u8, cont: bool) -> (r: Screen)
    ensures
        r@ == edit_profile_point_edit_time_menu_view(counter, *point, idx, cont),
{
    let mut h: Vec<char> = vec!['P', 'T', '-'];
    push_decimal(&mut h, (idx) as u64);
    push_text(&mut h, vec![',', ' ', 'T', 'I', 'M', 'E', ' ']);
    push_decimal(&mut h, (point.time_seconds) as u64);
    let line: Vec<char> = if counter == 255 {
        Vec::new()
    } else {
        let mut l: Vec<char> = Vec::new();
        push_decimal(&mut l, (counter) as u64);
        push_text(&mut l, vec![' ', 'S', 'E', 'C', 'O', 'N', 'D', 'S']);
        l
    };
    proof {
        assert(line@ =~= (if counter == 255 { Seq::empty() } else { decimal((counter) as nat) + seq![' ', 'S', 'E', 'C', 'O', 'N', 'D', 'S'] }));
    }
    Screen { header: header(cont, h), line, in_range: counter != 255 }
}

/// The screen that `edit_profile_point_edit_disabled_menu` shows.
pub open spec fn edit_profile_point_edit_disabled_menu_view(counter: u8, point: CurvePoint, idx: u8, state: bool, cont: bool) -> ScreenView {
    (header_if(cont, seq!['P', 'T', '-'] + decimal((idx) as nat) + seq![',', ' ', 'D', 'I', 'S', 'A', 'B', 'L', 'E', 'D', ' '] + bool_text(point.disabled)), (if counter == 255 { Seq::empty() } else { seq!['D', 'I', 'S', 'A', 'B', 'L', 'E', 'D', ':', ' '] + bool_text(state) }), counter != 255)
}

/// Disabled-flag entry for point `idx`: `state` is the candidate value.
pub fn edit_profile_point_edit_disabled_menu(counter: u8, point: &CurvePoint, idx: u8, state: bool, cont: bool) -> (r: Screen)
    ensures
        r@ == edit_profile_point_edit_disabled_menu_view(counter, *point, idx, state, cont),
{
    let mut h: Vec<char> = vec!['P', 'T', '-'];
    push_decimal(&mut h, (idx) as u64);
    push_text(&mut h, vec![',', ' ', 'D', 'I', 'S', 'A', 'B', 'L', 'E', 'D', ' ']);
    let w = bool_word(point.disabled);
    push_all(&mut h, &w);
    let line: Vec<char> = if counter == 255 {
        Vec::new()
    } else {
        let mut l: Vec<char> = vec!['D', 'I', 'S', 'A', 'B', 'L', 'E', 'D', ':', ' '];
        let w = bool_word(state);
        push_all(&mut l, &w);
        l
    };
    Screen { header: header(cont, h), line, in_range: counter != 255 }
}

/// The screen that `edit_exit_menu` shows.
pub open spec fn edit_exit_menu_view(counter: u8, cont: bool) -> ScreenView {
    (header_if(cont, seq!['E', 'X', 'I', 'T', '?']), sure_line(counter), counter < 2)
}

/// Confirmation before leaving the editor.
pub fn edit_exit_menu(counter: u8, cont: bool) -> (r: Screen)
    ensures
        r@ == edit_exit_menu_view(counter, cont),
{
    let mut h: Vec<char> = vec!['E', 'X', 'I', 'T', '?'];
    Screen { header: header(cont, h), line: sure_text(counter), in_range: counter < 2 }
}

/// The screen that `edit_save_exit_menu` shows.
pub open spec fn edit_save_exit_menu_view(counter: u8, cont: bool) -> ScreenView {
    (header_if(cont, seq!['S', 'A', 'V', 'E', ' ', '&', ' ', 'E', 'X', 'I', 'T', '?']), sure_line(counter), counter < 2)
}

/// Confirmation before saving the edited profile.
pub fn edit_save_exit_menu(counter: u8, cont: bool) -> (r: Screen)
    ensures
        r@ == edit_save_exit_menu_view(counter, cont),
{
    let mut h: Vec<char> = vec!['S', 'A', 'V', 'E', ' ', '&', ' ', 'E', 'X', 'I', 'T', '?'];
    Screen { header: header(cont, h), line: sure_text(counter), in_range: counter < 2 }
}

} // verus!

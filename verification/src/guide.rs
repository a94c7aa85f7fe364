//! The interactive guide: choosing a browser with the arrow keys, and the
//! checks on the answers typed in.
use vstd::prelude::*;
use vstd::utf8::encode_utf8;
use crate::text::{trim, trim_str, chars_of};

verus! {

broadcast use vstd::std_specs::vec::group_vec_axioms;

/// A place on the terminal.
#[derive(Debug)]
pub struct Position {
    pub x: usize,
    pub y: usize,
}

impl Default for Position {
    fn default() -> (p: Position)
        ensures
            p.x == 0 && p.y == 0,
    {
        Position { x: 0, y: 0 }
    }
}

/// A list of options and the one under the cursor.
pub struct Select {
    pub options: Vec<String>,
    pub selected: u8,
}

/// A key press, as far as the guide tells keys apart.
#[derive(Debug)]
pub enum Key {
    Char(char),
    Up,
    Down,
    Left,
    Right,
    Enter,
    Other,
}

/// The browser chooser.
pub struct Guide {
    pub cursor_position: Position,
    pub select_browsers: Select,
    pub should_quit: bool,
    pub is_interrupted: bool,
    pub selected_browser_index: u8,
}

/// The selection after the up arrow: one up, wrapping to the last option.
pub open spec fn up(s: nat, n: nat) -> nat {
    if s == 0 {
        (n - 1) as nat
    } else {
        (s - 1) as nat
    }
}

/// The selection after the down arrow: one down, wrapping to the first option.
pub open spec fn down(s: nat, n: nat) -> nat {
    (s + 1) % n
}

/// The browsers offered.
pub open spec fn browser_names() -> Seq<Seq<char>> {
    seq!["chrome"@, "firefox"@, "edge"@]
}

impl Guide {
    /// The chooser's state is usable: between one and 255 options, the
    /// cursor and the chosen index on one of them.
    pub open spec fn wf(&self) -> bool {
        &&& 1 <= self.select_browsers.options@.len() <= 255
        &&& (self.select_browsers.selected as int) < self.select_browsers.options@.len()
        &&& (self.selected_browser_index as int) < self.select_browsers.options@.len()
    }

    /// The options' names.
    pub open spec fn option_names(&self) -> Seq<Seq<char>> {
        self.select_browsers.options@.map_values(|s: String| s@)
    }

    /// A fresh chooser over chrome, firefox and edge, the cursor on the first.
    pub fn default() -> (g: Guide)
        ensures
            g.wf(),
            g.option_names() == browser_names(),
            g.select_browsers.selected == 0,
            g.cursor_position.x == 0 && g.cursor_position.y == 0,
            !g.should_quit,
            !g.is_interrupted,
            g.selected_browser_index == 0,
    {
        let options = vec![
            String::from_str("chrome"),
            String::from_str("firefox"),
            String::from_str("edge"),
        ];
        let g = Guide {
            cursor_position: Position { x: 0, y: 0 },
            select_browsers: Select { options, selected: 0 },
            is_interrupted: false,
            selected_browser_index: 0,
            should_quit: false,
        };
        assert(g.option_names() =~= browser_names());
        g
    }

    /// Moves the cursor: up and down wrap around, left and right do nothing.
    pub fn move_cursor(&mut self, key: Key)
        requires
            old(self).wf(),
        ensures
            final(self).wf(),
            final(self).select_browsers.options@ == old(self).select_browsers.options@,
            final(self).should_quit == old(self).should_quit,
            final(self).is_interrupted == old(self).is_interrupted,
            final(self).selected_browser_index == old(self).selected_browser_index,
            final(self).cursor_position == old(self).cursor_position,
            !(key is Up || key is Down) ==> *final(self) == *old(self),
            final(self).select_browsers.selected as nat == match key {
                Key::Up => up(
                    old(self).select_browsers.selected as nat,
                    old(self).select_browsers.options@.len(),
                ),
                Key::Down => down(
                    old(self).select_browsers.selected as nat,
                    old(self).select_browsers.options@.len(),
                ),
                _ => old(self).select_browsers.selected as nat,
            },
    {
        let n: usize = self.select_browsers.options.len();
        let n8: u8 = n as u8;
        match key {
            Key::Up => {
                if self.select_browsers.selected == 0 {
                    self.select_browsers.selected = n8 - 1;
                } else {
                    self.select_browsers.selected = self.select_browsers.selected - 1;
                }
            },
            Key::Down => {
                self.select_browsers.selected = (self.select_browsers.selected + 1) % n8;
            },
            _ => {},
        }
    }

    /// Takes in one key: `z` quits without a choice, the arrows move the
    /// cursor, Enter chooses the option under the cursor and quits.
    pub fn process_keypress(&mut self, key: Key)
        requires
            old(self).wf(),
        ensures
            final(self).wf(),
            final(self).select_browsers.options@ == old(self).select_browsers.options@,
            final(self).cursor_position == old(self).cursor_position,
            key == Key::Char('z') ==> {
                &&& final(self).should_quit
                &&& final(self).is_interrupted
                &&& final(self).select_browsers.selected == old(self).select_browsers.selected
                &&& final(self).selected_browser_index == old(self).selected_browser_index
            },
            (key matches Key::Char(c) && c != 'z') ==> *final(self) == *old(self),
            key is Up ==> final(self).select_browsers.selected as nat == up(
                old(self).select_browsers.selected as nat,
                old(self).select_browsers.options@.len(),
            ) && final(self).should_quit == old(self).should_quit && final(self).is_interrupted
                == old(self).is_interrupted && final(self).selected_browser_index == old(
                self,
            ).selected_browser_index,
            key is Down ==> final(self).select_browsers.selected as nat == down(
                old(self).select_browsers.selected as nat,
                old(self).select_browsers.options@.len(),
            ) && final(self).should_quit == old(self).should_quit && final(self).is_interrupted
                == old(self).is_interrupted && final(self).selected_browser_index == old(
                self,
            ).selected_browser_index,
            (key is Left || key is Right || key is Other) ==> *final(self) == *old(self),
            key is Enter ==> {
                &&& final(self).should_quit
                &&& final(self).is_interrupted == old(self).is_interrupted
                &&& final(self).selected_browser_index == old(self).select_browsers.selected
                &&& final(self).select_browsers.selected == old(self).select_browsers.selected
            },
    {
        match key {
            Key::Char(c) => {
                if c == 'z' {
                    self.should_quit = true;
                    self.is_interrupted = true;
                } else {
                    assert(*self == *old(self));
                }
            },
            Key::Up => self.move_cursor(Key::Up),
            Key::Down => self.move_cursor(Key::Down),
            Key::Left => self.move_cursor(Key::Left),
            Key::Right => self.move_cursor(Key::Right),
            Key::Enter => {
                self.selected_browser_index = self.select_browsers.selected;
                self.should_quit = true;
            },
            Key::Other => {},
        }
    }

    /// What the chooser hands back when it quits: nothing when interrupted,
    /// otherwise the chosen browser's name.
    pub fn selection(&self) -> (r: String)
        requires
            self.wf(),
        ensures
            r@ == if self.is_interrupted {
                Seq::<char>::empty()
            } else {
                self.option_names()[self.selected_browser_index as int]
            },
    {
        if self.is_interrupted {
            String::new()
        } else {
            self.select_browsers.options[self.selected_browser_index as usize].clone()
        }
    }

    /// The line drawn for option `i` with the marker `symbol` on the cursor's
    /// line; chrome is marked as macOS only.
    pub open spec fn option_line(&self, i: int, symbol: Seq<char>) -> Seq<char> {
        let name = self.option_names()[i];
        (if self.select_browsers.selected as int == i {
            symbol + " "@
        } else {
            "  "@
        }) + name + (if name == "chrome"@ {
            " (仅macOS)"@
        } else {
            Seq::empty()
        })
    }

    /// The lines of the option list, the first drawn on row 1, each on the
    /// next row.
    pub fn select_lines(&self, symbol: &str) -> (r: Vec<String>)
        requires
            self.wf(),
        ensures
            r@.len() == self.select_browsers.options@.len(),
            forall|i: int|
                0 <= i < r@.len() ==> #[trigger] r@[i]@ == self.option_line(i, symbol@),
    {
        let options = &self.select_browsers.options;
        let chrome = String::from_str("chrome");
        let mut r: Vec<String> = Vec::new();
        let mut i: usize = 0;
        while i < options.len()
            invariant
                i <= options@.len(),
                self.wf(),
                options == &self.select_browsers.options,
                chrome@ == "chrome"@,
                r@.len() == i,
                forall|k: int| 0 <= k < i ==> #[trigger] r@[k]@ == self.option_line(k, symbol@),
            decreases options@.len() - i,
        {
            let mut text = String::new();
            if self.select_browsers.selected as usize == i {
                text.append(symbol);
                text.append(" ");
            } else {
                text.append("  ");
            }
            text.append(options[i].as_str());
            if options[i] == chrome {
                text.append(" (仅macOS)");
            }
            assert(self.option_names()[i as int] == options@[i as int]@);
            assert(text@ =~= self.option_line(i as int, symbol@));
            r.push(text);
            i = i + 1;
        }
        r
    }
}

/// Going up and then down brings the cursor back, and so does down then up.
pub proof fn lemma_up_down_inverse(s: nat, n: nat)
    requires
        s < n,
    ensures
        down(up(s, n), n) == s,
        up(down(s, n), n) == s,
{
    assert(down(up(s, n), n) == s) by (nonlinear_arith)
        requires
            s < n,
            up(s, n) == if s == 0 {
                (n - 1) as nat
            } else {
                (s - 1) as nat
            },
            down(up(s, n), n) == (up(s, n) + 1) % n,
    ;
    assert(up(down(s, n), n) == s) by (nonlinear_arith)
        requires
            s < n,
            down(s, n) == (s + 1) % n,
            up(down(s, n), n) == if down(s, n) == 0 {
                (n - 1) as nat
            } else {
                (down(s, n) - 1) as nat
            },
    ;
}

// ---------------------------------------------------------------------------
// Answers typed in
// ---------------------------------------------------------------------------

/// A `y`/`n` answer after trimming: `y` is yes, `n` is no, anything else is
/// asked again.
pub open spec fn yes_no(input: Seq<char>) -> Option<bool> {
    if trim(input) == "y"@ {
        Some(true)
    } else if trim(input) == "n"@ {
        Some(false)
    } else {
        None
    }
}

/// Reads a `y`/`n` answer.
pub fn parse_yes_no(input: &str) -> (r: Option<bool>)
    ensures
        r == yes_no(input@),
{
    let t = trim_str(input);
    if t == String::from_str("y") {
        Some(true)
    } else if t == String::from_str("n") {
        Some(false)
    } else {
        None
    }
}

/// The Unicode numeric property of a character (general category Nd, Nl or No).
pub uninterp spec fn numeric(c: char) -> bool;

/// Calls `char::is_numeric`. The contract names its result, and states what
/// the documentation's examples show: `7` is numeric, `K` is not.
#[verifier::external_body]
fn char_is_numeric(c: char) -> (r: bool)
    ensures
        r == numeric(c),
        c == '7' ==> r,
        c == 'K' ==> !r,
{
    c.is_numeric()
}

/// Why an item id was refused.
#[derive(Debug)]
pub enum ItemIdError {
    Empty,
    NotNumeric,
    WrongLength,
}

/// The message shown for a refused item id.
pub open spec fn item_id_message(e: ItemIdError) -> Seq<char> {
    match e {
        ItemIdError::Empty => "商品ID不能为空, 重新输入"@,
        ItemIdError::NotNumeric => "商品ID只能包含数字, 重新输入"@,
        ItemIdError::WrongLength => "商品ID长度应为12位, 重新输入"@,
    }
}

impl ItemIdError {
    /// The message shown for the refusal.
    pub fn message(&self) -> (r: String)
        ensures
            r@ == item_id_message(*self),
    {
        match self {
            ItemIdError::Empty => String::from_str("商品ID不能为空, 重新输入"),
            ItemIdError::NotNumeric => String::from_str("商品ID只能包含数字, 重新输入"),
            ItemIdError::WrongLength => String::from_str("商品ID长度应为12位, 重新输入"),
        }
    }
}

/// The check of a typed item id: after trimming it must be non-empty, all
/// numeric, and twelve bytes long in UTF-8.
pub open spec fn item_id_check(input: Seq<char>) -> Result<Seq<char>, ItemIdError> {
    let t = trim(input);
    if t.len() == 0 {
        Err(ItemIdError::Empty)
    } else if !(forall|i: int| 0 <= i < t.len() ==> numeric(#[trigger] t[i])) {
        Err(ItemIdError::NotNumeric)
    } else if encode_utf8(t).len() != 12 {
        Err(ItemIdError::WrongLength)
    } else {
        Ok(t)
    }
}

/// An id is accepted exactly when, trimmed, it is non-empty, all numeric and
/// 12 bytes long in UTF-8, and then the trimmed id comes back; a non-empty
/// numeric id of any other length is refused as `WrongLength`.
pub proof fn lemma_item_id_length(input: Seq<char>)
    ensures
        item_id_check(input) matches Ok(s) ==> {
            &&& s == trim(input)
            &&& s.len() > 0
            &&& forall|i: int| 0 <= i < s.len() ==> numeric(#[trigger] s[i])
            &&& encode_utf8(s).len() == 12
        },
        ({
            let t = trim(input);
            (t.len() > 0 && forall|i: int| 0 <= i < t.len() ==> numeric(#[trigger] t[i])) ==> {
                &&& (item_id_check(input) is Ok <==> encode_utf8(t).len() == 12)
                &&& encode_utf8(t).len() != 12 ==> item_id_check(input) == Err::<
                    Seq<char>,
                    ItemIdError,
                >(ItemIdError::WrongLength)
            }
        }),
{
}

/// Checks a typed item id; the trimmed id comes back when it is accepted.
pub fn check_item_id(input: &str) -> (r: Result<String, ItemIdError>)
    ensures
        match r {
            Ok(s) => item_id_check(input@) == Ok::<Seq<char>, ItemIdError>(s@),
            Err(e) => item_id_check(input@) == Err::<Seq<char>, ItemIdError>(e),
        },
{
    let t = trim_str(input);
    let cs = chars_of(t.as_str());
    if cs.len() == 0 {
        return Err(ItemIdError::Empty);
    }
    let mut i: usize = 0;
    while i < cs.len()
        invariant
            i <= cs@.len(),
            cs@ == t@,
            t@ == trim(input@),
            forall|k: int| 0 <= k < i ==> numeric(#[trigger] cs@[k]),
        decreases cs@.len() - i,
    {
        if !char_is_numeric(cs[i]) {
            assert(!numeric(trim(input@)[i as int]));
            return Err(ItemIdError::NotNumeric);
        }
        i = i + 1;
    }
    assert(forall|k: int| 0 <= k < t@.len() ==> numeric(#[trigger] t@[k]));
    let bytes = t.as_str().as_bytes();
    if bytes.len() != 12 {
        return Err(ItemIdError::WrongLength);
    }
    Ok(t)
}

/// What `chrono::NaiveDateTime::parse_from_str` makes of a text in a format:
/// the date and time read, as milliseconds since the epoch when taken as UTC,
/// or the parse error as `{:?}` writes it.
pub uninterp spec fn datetime_parse(s: Seq<char>, fmt: Seq<char>) -> Result<i64, Seq<char>>;

/// Whether a text reads as a date and time in the given format.
pub open spec fn parses_as_datetime(s: Seq<char>, fmt: Seq<char>) -> bool {
    datetime_parse(s, fmt) is Ok
}

/// Calls `chrono::NaiveDateTime::parse_from_str`; a parsed date and time
/// comes back as its milliseconds since the epoch taken as UTC
/// (`and_utc().timestamp_millis()`), an error as its `{:?}` text. The
/// contract names the outcome.
#[verifier::external_body]
pub(crate) fn parse_datetime(s: &str, fmt: &str) -> (r: Result<i64, String>)
    ensures
        match r {
            Ok(ms) => datetime_parse(s@, fmt@) == Ok::<i64, Seq<char>>(ms),
            Err(e) => datetime_parse(s@, fmt@) == Err::<i64, Seq<char>>(e@),
        },
{
    match chrono::NaiveDateTime::parse_from_str(s, fmt) {
        Ok(t) => Ok(t.and_utc().timestamp_millis()),
        Err(e) => Err(format!("{:?}", e)),
    }
}

/// The format of a start time.
pub open spec fn start_time_format() -> Seq<char> {
    "%Y-%m-%d %H:%M:%S"@
}

/// Checks a typed start time: the trimmed text must read as
/// `%Y-%m-%d %H:%M:%S`. The trimmed text comes back when it does, the parse
/// error's text when it does not.
pub fn check_start_time(input: &str) -> (r: Result<String, String>)
    ensures
        r is Ok <==> parses_as_datetime(trim(input@), start_time_format()),
        match r {
            Ok(s) => s@ == trim(input@),
            Err(e) => datetime_parse(trim(input@), start_time_format()) == Err::<i64, Seq<char>>(e@),
        },
{
    let t = trim_str(input);
    match parse_datetime(t.as_str(), "%Y-%m-%d %H:%M:%S") {
        Ok(_) => Ok(t),
        Err(e) => Err(e),
    }
}

} // verus!

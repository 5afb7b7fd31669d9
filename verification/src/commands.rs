use vstd::prelude::*;

verus! {

/// A command the daemon understands, one variant per supported action.
#[derive(Debug, Clone, Copy, PartialEq, Eq, Hash)]
pub enum Command {
    FocusSpace(FocusSpaceOption),
    RotateSpace(SpaceRotation),
    BalanceSpace,
    MoveActiveWindowToSpace(u32),
    FocusWindow(u32),
    FocusWindowDirection(Direction),
    SwapWindowDirection(Direction),
    WarpWindowDirection(Direction),
    ToggleWindowFloating,
    ToggleZoomFullscreen,
}

/// The target of the `space --focus` command.
#[derive(Debug, Clone, Copy, PartialEq, Eq, Hash)]
pub enum FocusSpaceOption {
    Next,
    Prev,
    First,
    Last,
    Recent,
    Space(u32),
}

/// The amount passed to the `space --rotate` command.
#[derive(Debug, Clone, Copy, PartialEq, Eq, Hash)]
pub enum SpaceRotation {
    Rotate90,
    Rotate180,
    Rotate270,
}

/// A cardinal direction, as the window commands take it.
#[derive(Debug, Clone, Copy, PartialEq, Eq, Hash)]
pub enum Direction {
    North,
    South,
    East,
    West,
}

/// A read-only snapshot of one mission-control space, as the daemon
/// reports it to `query --spaces`.  The JSON member names are the
/// kebab-case forms of the field names, except `space_type`, whose member
/// is named `type`.
#[derive(Debug, Clone, PartialEq, Eq, Hash)]
pub struct SpaceInfo {
    pub id: u32,
    pub uuid: String,
    pub index: u32,
    pub label: String,
    pub space_type: String,
    pub display: u32,
    pub windows: Vec<u32>,
    pub first_window: u32,
    pub last_window: u32,
    pub has_focus: bool,
    pub is_visible: bool,
    pub is_native_fullscreen: bool,
}

/// The character for the decimal digit `d % 10`.
pub open spec fn decimal_digit(d: nat) -> char {
    ((48 + (d % 10)) as u8) as char
}

/// The usual decimal rendering of `n`, most significant digit first and
/// without leading zeros (`0` renders as "0").
pub open spec fn decimal_str(n: nat) -> Seq<char>
    decreases n,
{
    if n < 10 {
        seq![decimal_digit(n)]
    } else {
        decimal_str(n / 10).push(decimal_digit(n % 10))
    }
}

/// The fixed wire token of a direction.
pub open spec fn direction_token(d: Direction) -> Seq<char> {
    match d {
        Direction::North => "north"@,
        Direction::South => "south"@,
        Direction::East => "east"@,
        Direction::West => "west"@,
    }
}

/// The fixed wire token of a rotation amount.
pub open spec fn rotation_token(r: SpaceRotation) -> Seq<char> {
    match r {
        SpaceRotation::Rotate90 => "90"@,
        SpaceRotation::Rotate180 => "180"@,
        SpaceRotation::Rotate270 => "270"@,
    }
}

/// The wire token of a focus target: a fixed name, or the decimal space id.
pub open spec fn focus_space_token(o: FocusSpaceOption) -> Seq<char> {
    match o {
        FocusSpaceOption::Next => "next"@,
        FocusSpaceOption::Prev => "prev"@,
        FocusSpaceOption::First => "first"@,
        FocusSpaceOption::Last => "last"@,
        FocusSpaceOption::Recent => "recent"@,
        FocusSpaceOption::Space(id) => decimal_str(id as nat),
    }
}

/// The message string a command renders to before framing.  Every variant
/// maps to exactly one string; the mapping is total and deterministic.
pub open spec fn wire_string(c: Command) -> Seq<char> {
    match c {
        Command::FocusSpace(o) => "space --focus "@ + focus_space_token(o),
        Command::RotateSpace(r) => "space --rotate "@ + rotation_token(r),
        Command::BalanceSpace => "space --balance"@,
        Command::MoveActiveWindowToSpace(id) => "window --space "@ + decimal_str(id as nat),
        Command::FocusWindow(id) => "window --focus "@ + decimal_str(id as nat),
        Command::FocusWindowDirection(d) => "window --focus "@ + direction_token(d),
        Command::SwapWindowDirection(d) => "window --swap "@ + direction_token(d),
        Command::WarpWindowDirection(d) => "window --warp "@ + direction_token(d),
        Command::ToggleWindowFloating => "window --toggle float"@,
        Command::ToggleZoomFullscreen => "window --toggle zoom-fullscreen"@,
    }
}

/// Appends the digit character for `d` to `s`.
fn push_digit(s: &mut String, d: u32)
    requires
        d < 10,
    ensures
        final(s)@ == old(s)@ + seq![decimal_digit(d as nat)],
{
    let t: &str = match d {
        0 => "0",
        1 => "1",
        2 => "2",
        3 => "3",
        4 => "4",
        5 => "5",
        6 => "6",
        7 => "7",
        8 => "8",
        _ => "9",
    };
    proof {
        reveal_strlit("0");
        reveal_strlit("1");
        reveal_strlit("2");
        reveal_strlit("3");
        reveal_strlit("4");
        reveal_strlit("5");
        reveal_strlit("6");
        reveal_strlit("7");
        reveal_strlit("8");
        reveal_strlit("9");
        assert(t@ =~= seq![decimal_digit(d as nat)]);
    }
    s.append(t);
}

/// Appends the decimal rendering of `n` to `s`.
fn append_decimal(s: &mut String, n: u32)
    ensures
        final(s)@ == old(s)@ + decimal_str(n as nat),
    decreases n,
{
    if n < 10 {
        push_digit(s, n);
    } else {
        append_decimal(s, n / 10);
        push_digit(s, n % 10);
        proof {
            assert(old(s)@ + decimal_str((n / 10) as nat) + seq![decimal_digit((n % 10) as nat)]
                =~= old(s)@ + decimal_str(n as nat));
        }
    }
}

/// The decimal rendering of `n` as a fresh string.
pub fn u32_to_string(n: u32) -> (r: String)
    ensures
        r@ == decimal_str(n as nat),
{
    let mut s = String::new();
    append_decimal(&mut s, n);
    proof {
        assert(Seq::<char>::empty() + decimal_str(n as nat) =~= decimal_str(n as nat));
    }
    s
}

/// 10 to the power `k`.
pub open spec fn pow10(k: nat) -> nat
    decreases k,
{
    if k == 0 {
        1
    } else {
        10 * pow10((k - 1) as nat)
    }
}

/// A number below `pow10(k)` renders to at most `k` digits.
proof fn lemma_decimal_str_len(n: nat, k: nat)
    requires
        1 <= k,
        n < pow10(k),
    ensures
        decimal_str(n).len() <= k,
    decreases n,
{
    if n < 10 {
    } else {
        assert(pow10(0) == 1);
        assert(pow10(k) == 10 * pow10((k - 1) as nat));
        assert(k >= 2);
        assert(n / 10 < pow10((k - 1) as nat)) by (nonlinear_arith)
            requires
                n < 10 * pow10((k - 1) as nat),
        ;
        lemma_decimal_str_len(n / 10, (k - 1) as nat);
    }
}

/// A u32 value renders to at most ten digits.
pub proof fn lemma_decimal_str_len_u32(n: nat)
    requires
        n <= u32::MAX,
    ensures
        decimal_str(n).len() <= 10,
{
    assert(pow10(0) == 1);
    assert(pow10(1) == 10);
    assert(pow10(2) == 100);
    assert(pow10(3) == 1000);
    assert(pow10(4) == 10000);
    assert(pow10(5) == 100000);
    assert(pow10(6) == 1000000);
    assert(pow10(7) == 10000000);
    assert(pow10(8) == 100000000);
    assert(pow10(9) == 1000000000);
    assert(pow10(10) == 10000000000);
    lemma_decimal_str_len(n, 10);
}

/// Decimal renderings hold digit characters only, all ASCII.
pub proof fn lemma_decimal_str_ascii(n: nat)
    ensures
        vstd::utf8::is_ascii_chars(decimal_str(n)),
    decreases n,
{
    if n < 10 {
        assert('\0' <= decimal_digit(n) <= '\u{7f}');
    } else {
        lemma_decimal_str_ascii(n / 10);
        assert('\0' <= decimal_digit(n % 10) <= '\u{7f}');
        assert(decimal_str(n) == decimal_str(n / 10).push(decimal_digit(n % 10)));
        assert(forall|i: int|
            0 <= i < decimal_str(n).len() ==> '\0' <= #[trigger] decimal_str(n)[i] <= '\u{7f}');
    }
}

/// Every command's message string is ASCII and short: well under the
/// capacity of the frame's 4-byte length field.
pub proof fn lemma_wire_string_ascii_short(c: Command)
    ensures
        vstd::utf8::is_ascii_chars(wire_string(c)),
        wire_string(c).len() <= 31,
{
    reveal_strlit("space --focus ");
    reveal_strlit("space --rotate ");
    reveal_strlit("space --balance");
    reveal_strlit("window --space ");
    reveal_strlit("window --focus ");
    reveal_strlit("window --swap ");
    reveal_strlit("window --warp ");
    reveal_strlit("window --toggle float");
    reveal_strlit("window --toggle zoom-fullscreen");
    reveal_strlit("north");
    reveal_strlit("south");
    reveal_strlit("east");
    reveal_strlit("west");
    reveal_strlit("90");
    reveal_strlit("180");
    reveal_strlit("270");
    reveal_strlit("next");
    reveal_strlit("prev");
    reveal_strlit("first");
    reveal_strlit("last");
    reveal_strlit("recent");
    match c {
        Command::FocusSpace(o) => {
            match o {
                FocusSpaceOption::Space(id) => {
                    lemma_decimal_str_ascii(id as nat);
                    lemma_decimal_str_len_u32(id as nat);
                },
                _ => {},
            }
            vstd::utf8::is_ascii_chars_concat(
                "space --focus "@ + focus_space_token(o),
                "space --focus "@,
                focus_space_token(o),
            );
        },
        Command::RotateSpace(r) => {
            vstd::utf8::is_ascii_chars_concat(
                "space --rotate "@ + rotation_token(r),
                "space --rotate "@,
                rotation_token(r),
            );
        },
        Command::BalanceSpace => {},
        Command::MoveActiveWindowToSpace(id) => {
            lemma_decimal_str_ascii(id as nat);
            lemma_decimal_str_len_u32(id as nat);
            vstd::utf8::is_ascii_chars_concat(
                "window --space "@ + decimal_str(id as nat),
                "window --space "@,
                decimal_str(id as nat),
            );
        },
        Command::FocusWindow(id) => {
            lemma_decimal_str_ascii(id as nat);
            lemma_decimal_str_len_u32(id as nat);
            vstd::utf8::is_ascii_chars_concat(
                "window --focus "@ + decimal_str(id as nat),
                "window --focus "@,
                decimal_str(id as nat),
            );
        },
        Command::FocusWindowDirection(d) => {
            vstd::utf8::is_ascii_chars_concat(
                "window --focus "@ + direction_token(d),
                "window --focus "@,
                direction_token(d),
            );
        },
        Command::SwapWindowDirection(d) => {
            vstd::utf8::is_ascii_chars_concat(
                "window --swap "@ + direction_token(d),
                "window --swap "@,
                direction_token(d),
            );
        },
        Command::WarpWindowDirection(d) => {
            vstd::utf8::is_ascii_chars_concat(
                "window --warp "@ + direction_token(d),
                "window --warp "@,
                direction_token(d),
            );
        },
        Command::ToggleWindowFloating => {},
        Command::ToggleZoomFullscreen => {},
    }
}

impl Direction {
    /// The fixed token this direction puts on the wire.
    pub fn token(&self) -> (r: &'static str)
        ensures
            r@ == direction_token(*self),
    {
        match self {
            Direction::North => "north",
            Direction::South => "south",
            Direction::East => "east",
            Direction::West => "west",
        }
    }
}

impl SpaceRotation {
    /// The fixed token this rotation puts on the wire.
    pub fn token(&self) -> (r: &'static str)
        ensures
            r@ == rotation_token(*self),
    {
        match self {
            SpaceRotation::Rotate90 => "90",
            SpaceRotation::Rotate180 => "180",
            SpaceRotation::Rotate270 => "270",
        }
    }
}

impl FocusSpaceOption {
    /// The token this focus target puts on the wire.
    pub fn token(&self) -> (r: String)
        ensures
            r@ == focus_space_token(*self),
    {
        match self {
            FocusSpaceOption::Next => String::from_str("next"),
            FocusSpaceOption::Prev => String::from_str("prev"),
            FocusSpaceOption::First => String::from_str("first"),
            FocusSpaceOption::Last => String::from_str("last"),
            FocusSpaceOption::Recent => String::from_str("recent"),
            FocusSpaceOption::Space(id) => u32_to_string(*id),
        }
    }
}

impl Command {
    /// The message string this command sends, exactly the daemon's syntax.
    pub fn render(&self) -> (r: String)
        ensures
            r@ == wire_string(*self),
    {
        match self {
            Command::FocusSpace(o) => String::from_str("space --focus ").concat(o.token().as_str()),
            Command::RotateSpace(r) => String::from_str("space --rotate ").concat(r.token()),
            Command::BalanceSpace => String::from_str("space --balance"),
            Command::MoveActiveWindowToSpace(id) => String::from_str("window --space ").concat(
                u32_to_string(*id).as_str(),
            ),
            Command::FocusWindow(id) => String::from_str("window --focus ").concat(
                u32_to_string(*id).as_str(),
            ),
            Command::FocusWindowDirection(d) => String::from_str("window --focus ").concat(
                d.token(),
            ),
            Command::SwapWindowDirection(d) => String::from_str("window --swap ").concat(d.token()),
            Command::WarpWindowDirection(d) => String::from_str("window --warp ").concat(d.token()),
            Command::ToggleWindowFloating => String::from_str("window --toggle float"),
            Command::ToggleZoomFullscreen => String::from_str("window --toggle zoom-fullscreen"),
        }
    }
}

} // verus!

//! Game options given on the command line.

use vstd::prelude::*;

verus! {

/// Render distance used when none is given.
pub const DEFAULT_RENDER_DISTANCE: u32 = 10;

/// Options of a game session.
#[derive(Clone, Copy, Debug, PartialEq, Eq, Structural)]
pub struct GameArgs {
    pub render_distance: u32,
}

impl Default for GameArgs {
    fn default() -> (r: GameArgs)
        ensures
            r.render_distance == DEFAULT_RENDER_DISTANCE,
    {
        GameArgs { render_distance: DEFAULT_RENDER_DISTANCE }
    }
}

/// Whether `c` is an ASCII decimal digit.
pub open spec fn is_decimal_digit(c: char) -> bool {
    '0' <= c <= '9'
}

/// The number that a string of decimal digits spells.
pub open spec fn digits_value(s: Seq<char>) -> nat
    decreases s.len(),
{
    if s.len() == 0 {
        0
    } else {
        digits_value(s.drop_last()) * 10 + ((s.last() as int) - ('0' as int)) as nat
    }
}

/// What `u32` makes of a string: an optional `+` followed by one or more
/// decimal digits and nothing else, whose value fits in `u32`.
pub open spec fn decimal_u32(s: Seq<char>) -> Option<u32> {
    let d = if s.len() > 0 && s[0] == '+' {
        s.drop_first()
    } else {
        s
    };
    if d.len() > 0 && (forall|i: int| 0 <= i < d.len() ==> is_decimal_digit(#[trigger] d[i]))
        && digits_value(d) <= u32::MAX {
        Some(digits_value(d) as u32)
    } else {
        None
    }
}

/// Relies on `str::parse::<u32>` (u32's `FromStr`, documented as accepting
/// an optional `+` sign followed by only decimal digits, and failing on
/// overflow) to read a number.
#[verifier::external_body]
fn parse_u32(s: &str) -> (r: Option<u32>)
    ensures
        r == decimal_u32(s@),
{
    s.parse::<u32>().ok()
}

/// The key that sets the render distance.
pub open spec fn render_distance_key() -> Seq<char> {
    "render_distance"@
}

/// Whether the argument at `i` is the render distance key followed by a
/// readable number.
pub open spec fn sets_render_distance(args: Seq<Seq<char>>, i: int) -> bool {
    &&& 0 <= i
    &&& i + 1 < args.len()
    &&& args[i] == render_distance_key()
    &&& decimal_u32(args[i + 1]) is Some
}

/// The render distance set by the last key, among the first `n` arguments,
/// that is followed by a readable number.
pub open spec fn last_render_distance(args: Seq<Seq<char>>, n: int) -> Option<u32>
    decreases n,
{
    if n <= 0 {
        None
    } else if sets_render_distance(args, n - 1) {
        decimal_u32(args[n])
    } else {
        last_render_distance(args, n - 1)
    }
}

/// The options that a list of arguments selects.
pub open spec fn game_args_of(args: Seq<Seq<char>>) -> GameArgs {
    GameArgs {
        render_distance: match last_render_distance(args, args.len() as int) {
            Some(d) => d,
            None => DEFAULT_RENDER_DISTANCE,
        },
    }
}

/// Reads the options from the program's arguments. Each argument is looked
/// at in turn; where one is `render_distance` and the next one reads as a
/// `u32`, that number becomes the render distance, the last such pair
/// winning. Any other argument is ignored, and so is a key with nothing
/// after it or with something after it that is not a number.
pub fn handle_args(args: &Vec<String>) -> (r: GameArgs)
    ensures
        r == game_args_of(args@.map_values(|s: String| s@)),
{
    let ghost a = args@.map_values(|s: String| s@);
    let key = "render_distance".to_owned();
    proof {
        reveal_strlit("render_distance");
    }
    let mut game_args = GameArgs::default();
    let mut index: usize = 0;
    while index < args.len()
        invariant
            0 <= index <= args.len(),
            a == args@.map_values(|s: String| s@),
            key@ == render_distance_key(),
            game_args == (GameArgs {
                render_distance: match last_render_distance(a, index as int) {
                    Some(d) => d,
                    None => DEFAULT_RENDER_DISTANCE,
                },
            }),
        decreases args.len() - index,
    {
        if args[index] == key && index + 1 < args.len() {
            if let Some(new_render_dist) = parse_u32(args[index + 1].as_str()) {
                game_args.render_distance = new_render_dist;
            }
        }
        index += 1;
    }
    game_args
}

} // verus!

use vstd::prelude::*;
use crate::text::{decimal, owned, push_char, push_str, u32_decimal};

verus! {

/// A game that the Vortex API lists.
pub struct Game {
    pub id: u32,
    pub name: String,
}

/// `s` right-aligned in `width` columns (`{:>width}`).
pub open spec fn right_aligned(s: Seq<char>, width: nat) -> Seq<char> {
    if s.len() >= width {
        s
    } else {
        Seq::new((width - s.len()) as nat, |i: int| ' ') + s
    }
}

/// The id column of the game list: the id right-aligned in five columns.
pub fn game_id_column(id: u32) -> (r: String)
    ensures
        r@ == right_aligned(decimal(id as nat), 5),
{
    let d = u32_decimal(id);
    let n = d.as_str().unicode_len();
    let mut r = String::new();
    let mut k: usize = n;
    while k < 5
        invariant
            n == d@.len(),
            n <= k <= 5 || (n > 5 && k == n),
            r@ == Seq::new((k - n) as nat, |i: int| ' '),
        decreases 5 - k,
    {
        push_char(&mut r, ' ');
        k = k + 1;
        assert(r@ =~= Seq::new((k - n) as nat, |i: int| ' '));
    }
    push_str(&mut r, &d);
    assert(r@ =~= right_aligned(decimal(id as nat), 5));
    r
}

/// The summary line of the game list.
pub fn games_found_line(count: usize) -> (r: String)
    ensures
        r@ == "Found "@ + decimal(count as nat) + " game(s)"@,
{
    let mut r = owned("Found ");
    let d = crate::text::usize_decimal(count);
    push_str(&mut r, &d);
    push_str(&mut r, " game(s)");
    r
}

} // verus!

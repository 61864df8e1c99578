//! Reading the JSON text of a game from left to right.
//!
//! Each reader takes the text that is left and gives back what it read
//! together with the text behind it. The readers take more than the writer
//! ever writes (a number may start with zeros), so a caller that wants the
//! written form alone writes the result again and compares.

use crate::decimal::{all_digits, decimal_text, digit_char, digit_value, is_digit};
use crate::engine::{GameEngine, GameState};
use crate::player::Player;
use crate::status::GameStatus;
use crate::wire::{cell_json, cells_json, line_json, player_json, state_json, status_json};
use vstd::prelude::*;

verus! {

/// What is left of `rest` behind `lit`, if `rest` starts with `lit`.
pub open spec fn expect(rest: Seq<char>, lit: Seq<char>) -> Option<Seq<char>> {
    if lit.len() <= rest.len() && rest.subrange(0, lit.len() as int) == lit {
        Some(rest.skip(lit.len() as int))
    } else {
        None
    }
}

/// Reads `"X"` or `"O"`.
pub open spec fn scan_player(rest: Seq<char>) -> Option<(Player, Seq<char>)> {
    match expect(rest, "\"X\""@) {
        Some(r) => Some((Player::X, r)),
        None => match expect(rest, "\"O\""@) {
            Some(r) => Some((Player::O, r)),
            None => None,
        },
    }
}

/// Reads `null` or a player.
pub open spec fn scan_cell(rest: Seq<char>) -> Option<(Option<Player>, Seq<char>)> {
    match expect(rest, "null"@) {
        Some(r) => Some((None, r)),
        None => match scan_player(rest) {
            Some((player, r)) => Some((Some(player), r)),
            None => None,
        },
    }
}

/// What follows cell `i` of the board: a comma, or the closing bracket.
pub open spec fn cell_end(i: int) -> Seq<char> {
    if i == 8 {
        "]"@
    } else {
        ","@
    }
}

/// Reads the cells from cell `i` on, each with what follows it, and adds
/// them to `acc`.
pub open spec fn scan_cells(rest: Seq<char>, i: int, acc: Seq<Option<Player>>) -> Option<
    (Seq<Option<Player>>, Seq<char>),
>
    decreases 9 - i,
{
    if i >= 9 {
        Some((acc, rest))
    } else {
        match scan_cell(rest) {
            None => None,
            Some((cell, r1)) => match expect(r1, cell_end(i)) {
                None => None,
                Some(r2) => scan_cells(r2, i + 1, acc.push(cell)),
            },
        }
    }
}

/// Reads digits as long as there are any, going on from the number `acc`.
/// Gives up on a number that no `usize` holds.
pub open spec fn scan_digits(rest: Seq<char>, acc: int) -> Option<(int, Seq<char>)>
    decreases rest.len(),
{
    if rest.len() > 0 && is_digit(rest[0]) {
        let next = acc * 10 + digit_value(rest[0]);
        if next > usize::MAX {
            None
        } else {
            scan_digits(rest.skip(1), next)
        }
    } else {
        Some((acc, rest))
    }
}

/// Reads three numbers in brackets.
pub open spec fn scan_line(rest: Seq<char>) -> Option<([usize; 3], Seq<char>)> {
    match expect(rest, "["@) {
        None => None,
        Some(r0) => match scan_digits(r0, 0) {
            None => None,
            Some((a, r1)) => match expect(r1, ","@) {
                None => None,
                Some(r2) => match scan_digits(r2, 0) {
                    None => None,
                    Some((b, r3)) => match expect(r3, ","@) {
                        None => None,
                        Some(r4) => match scan_digits(r4, 0) {
                            None => None,
                            Some((c, r5)) => match expect(r5, "]"@) {
                                None => None,
                                Some(r6) => Some(([a as usize, b as usize, c as usize], r6)),
                            },
                        },
                    },
                },
            },
        },
    }
}

/// Reads the value of a win: the player and the line.
pub open spec fn scan_win(rest: Seq<char>) -> Option<(GameStatus, Seq<char>)> {
    match scan_player(rest) {
        None => None,
        Some((player, r1)) => match expect(r1, ",\"line\":"@) {
            None => None,
            Some(r2) => match scan_line(r2) {
                None => None,
                Some((line, r3)) => match expect(r3, "}}"@) {
                    None => None,
                    Some(r4) => Some((GameStatus::Win { player, line }, r4)),
                },
            },
        },
    }
}

/// Reads a status.
pub open spec fn scan_status(rest: Seq<char>) -> Option<(GameStatus, Seq<char>)> {
    match expect(rest, "{\"type\":\"Ongoing\"}"@) {
        Some(r) => Some((GameStatus::Ongoing, r)),
        None => match expect(rest, "{\"type\":\"Draw\"}"@) {
            Some(r) => Some((GameStatus::Draw, r)),
            None => match expect(rest, "{\"type\":\"Win\",\"value\":{\"player\":"@) {
                Some(r) => scan_win(r),
                None => None,
            },
        },
    }
}

/// Reads a game. What stands behind the closing brace is not looked at.
pub open spec fn scan_state(text: Seq<char>) -> Option<GameState> {
    match expect(text, "{\"board\":["@) {
        None => None,
        Some(r0) => match scan_cells(r0, 0, Seq::empty()) {
            None => None,
            Some((cells, r1)) => match expect(r1, ",\"currentPlayer\":"@) {
                None => None,
                Some(r2) => match scan_player(r2) {
                    None => None,
                    Some((turn, r3)) => match expect(r3, ",\"status\":"@) {
                        None => None,
                        Some(r4) => match scan_status(r4) {
                            None => None,
                            Some((status, r5)) => match expect(r5, "}"@) {
                                None => None,
                                Some(_) => Some(GameState { cells, turn, status }),
                            },
                        },
                    },
                },
            },
        },
    }
}

/// A text that starts with `lit` is read past it.
proof fn lemma_expect(lit: Seq<char>, post: Seq<char>)
    ensures
        expect(lit + post, lit) == Some(post),
{
    assert((lit + post).subrange(0, lit.len() as int) =~= lit);
    assert((lit + post).skip(lit.len() as int) =~= post);
}

/// A text that parts from `lit` at character `i` does not start with it.
proof fn lemma_expect_other(other: Seq<char>, post: Seq<char>, lit: Seq<char>, i: int)
    requires
        0 <= i < other.len(),
        i < lit.len(),
        other[i] != lit[i],
    ensures
        expect(other + post, lit) is None,
{
    if lit.len() <= (other + post).len() {
        assert((other + post).subrange(0, lit.len() as int)[i] == other[i]);
    }
}

/// A written player is read back.
proof fn lemma_scan_player(player: Player, post: Seq<char>)
    ensures
        scan_player(player_json(player) + post) == Some((player, post)),
{
    reveal_strlit("\"X\"");
    reveal_strlit("\"O\"");
    lemma_expect(player_json(player), post);
    if player == Player::O {
        lemma_expect_other("\"O\""@, post, "\"X\""@, 1);
    }
}

/// A written cell is read back.
proof fn lemma_scan_cell(cell: Option<Player>, post: Seq<char>)
    ensures
        scan_cell(cell_json(cell) + post) == Some((cell, post)),
{
    reveal_strlit("\"X\"");
    reveal_strlit("\"O\"");
    reveal_strlit("null");
    match cell {
        None => {
            lemma_expect("null"@, post);
        },
        Some(player) => {
            lemma_expect_other(player_json(player), post, "null"@, 0);
            lemma_scan_player(player, post);
        },
    }
}

/// The written cells from cell `i` on are read back, and join the cells
/// before them.
proof fn lemma_scan_cells(cells: Seq<Option<Player>>, i: int, post: Seq<char>)
    requires
        cells.len() == 9,
        0 <= i <= 9,
    ensures
        scan_cells(cells_json(cells.skip(i)) + post, i, cells.take(i)) == Some((cells, post)),
    decreases 9 - i,
{
    let left = cells.skip(i);
    if i == 9 {
        assert(cells.take(9) =~= cells);
        assert(cells_json(left) + post =~= post);
    } else {
        let cell = cells[i];
        let behind = cells_json(cells.skip(i + 1)) + post;
        assert(left[0] == cell);
        assert(left.skip(1) =~= cells.skip(i + 1));
        assert(left.len() == 9 - i);
        if i == 8 {
            assert(cells_json(cells.skip(i + 1)) =~= Seq::<char>::empty());
        }
        assert(cells_json(left) + post =~= cell_json(cell) + (cell_end(i) + behind));
        lemma_scan_cell(cell, cell_end(i) + behind);
        lemma_expect(cell_end(i), behind);
        assert(cells.take(i).push(cell) =~= cells.take(i + 1));
        lemma_scan_cells(cells, i + 1, post);
    }
}

/// The number that the digits `digits` write behind the number `acc`.
spec fn digits_from(acc: int, digits: Seq<char>) -> int
    decreases digits.len(),
{
    if digits.len() == 0 {
        acc
    } else {
        digits_from(acc * 10 + digit_value(digits[0]), digits.skip(1))
    }
}

/// Digits never make a number smaller.
proof fn lemma_digits_from_grows(acc: int, digits: Seq<char>)
    requires
        acc >= 0,
        all_digits(digits),
    ensures
        digits_from(acc, digits) >= acc,
    decreases digits.len(),
{
    if digits.len() > 0 {
        assert(is_digit(digits[0]));
        assert forall|i: int| 0 <= i < digits.skip(1).len() implies is_digit(
            #[trigger] digits.skip(1)[i],
        ) by {
            assert(digits.skip(1)[i] == digits[i + 1]);
        }
        lemma_digits_from_grows(acc * 10 + digit_value(digits[0]), digits.skip(1));
    }
}

/// One more digit at the end: ten times the number, and the digit.
proof fn lemma_digits_from_push(acc: int, digits: Seq<char>, last: char)
    ensures
        digits_from(acc, digits.push(last)) == digits_from(acc, digits) * 10 + digit_value(last),
    decreases digits.len(),
{
    let longer = digits.push(last);
    if digits.len() == 0 {
        assert(longer.skip(1) =~= Seq::<char>::empty());
        assert(digits_from(acc * 10 + digit_value(last), longer.skip(1)) == acc * 10 + digit_value(
            last,
        ));
    } else {
        assert(longer[0] == digits[0]);
        assert(longer.skip(1) =~= digits.skip(1).push(last));
        lemma_digits_from_push(acc * 10 + digit_value(digits[0]), digits.skip(1), last);
    }
}

/// The decimal text of `n` is made of digits, and read from the left they
/// give `n`.
proof fn lemma_decimal_text_from_left(n: nat)
    ensures
        decimal_text(n).len() > 0,
        all_digits(decimal_text(n)),
        digits_from(0, decimal_text(n)) == n,
    decreases n,
{
    if n < 10 {
        let text = decimal_text(n);
        assert(text.skip(1) =~= Seq::<char>::empty());
        assert(digits_from(digit_value(text[0]), text.skip(1)) == digit_value(text[0]));
    } else {
        lemma_decimal_text_from_left(n / 10);
        lemma_digits_from_push(0, decimal_text(n / 10), digit_char((n % 10) as int));
    }
}

/// Digits that end where the text ends, or before a character that is no
/// digit, are read to the last of them.
proof fn lemma_scan_digits(acc: int, digits: Seq<char>, post: Seq<char>)
    requires
        acc >= 0,
        all_digits(digits),
        digits_from(acc, digits) <= usize::MAX,
        post.len() > 0 ==> !is_digit(post[0]),
    ensures
        scan_digits(digits + post, acc) == Some((digits_from(acc, digits), post)),
    decreases digits.len(),
{
    let text = digits + post;
    if digits.len() == 0 {
        assert(text =~= post);
    } else {
        let next = acc * 10 + digit_value(digits[0]);
        assert(text[0] == digits[0]);
        assert(is_digit(digits[0]));
        assert(text.skip(1) =~= digits.skip(1) + post);
        assert forall|i: int| 0 <= i < digits.skip(1).len() implies is_digit(
            #[trigger] digits.skip(1)[i],
        ) by {
            assert(digits.skip(1)[i] == digits[i + 1]);
        }
        lemma_digits_from_grows(next, digits.skip(1));
        lemma_scan_digits(next, digits.skip(1), post);
    }
}

/// A written number is read back, if what follows it is no digit.
proof fn lemma_scan_number(n: usize, post: Seq<char>)
    requires
        post.len() > 0 ==> !is_digit(post[0]),
    ensures
        scan_digits(decimal_text(n as nat) + post, 0) == Some((n as int, post)),
{
    lemma_decimal_text_from_left(n as nat);
    lemma_scan_digits(0, decimal_text(n as nat), post);
}

/// A written line is read back.
proof fn lemma_scan_line(line: [usize; 3], post: Seq<char>)
    ensures
        scan_line(line_json(line) + post) == Some((line, post)),
{
    reveal_strlit("[");
    reveal_strlit(",");
    reveal_strlit("]");
    let a = decimal_text(line[0] as nat);
    let b = decimal_text(line[1] as nat);
    let c = decimal_text(line[2] as nat);
    let r6 = post;
    let r5 = "]"@ + r6;
    let r4 = c + r5;
    let r3 = ","@ + r4;
    let r2 = b + r3;
    let r1 = ","@ + r2;
    let r0 = a + r1;
    assert(line_json(line) + post =~= "["@ + r0);
    lemma_expect("["@, r0);
    lemma_scan_number(line[0], r1);
    lemma_expect(","@, r2);
    lemma_scan_number(line[1], r3);
    lemma_expect(","@, r4);
    lemma_scan_number(line[2], r5);
    lemma_expect("]"@, r6);
    assert(line =~= [line[0] as int as usize, line[1] as int as usize, line[2] as int as usize]);
}

/// A written status is read back.
proof fn lemma_scan_status(status: GameStatus, post: Seq<char>)
    ensures
        scan_status(status_json(status) + post) == Some((status, post)),
{
    reveal_strlit("{\"type\":\"Ongoing\"}");
    reveal_strlit("{\"type\":\"Draw\"}");
    reveal_strlit("{\"type\":\"Win\",\"value\":{\"player\":");
    let ongoing = "{\"type\":\"Ongoing\"}"@;
    let draw = "{\"type\":\"Draw\"}"@;
    let win = "{\"type\":\"Win\",\"value\":{\"player\":"@;
    match status {
        GameStatus::Ongoing => {
            lemma_expect(ongoing, post);
        },
        GameStatus::Draw => {
            lemma_expect_other(draw, post, ongoing, 9);
            lemma_expect(draw, post);
        },
        GameStatus::Win { player, line } => {
            let r4 = post;
            let r3 = "}}"@ + r4;
            let r2 = line_json(line) + r3;
            let r1 = ",\"line\":"@ + r2;
            let r0 = player_json(player) + r1;
            assert(status_json(status) + post =~= win + r0);
            lemma_expect_other(win, r0, ongoing, 9);
            lemma_expect_other(win, r0, draw, 9);
            lemma_expect(win, r0);
            lemma_scan_player(player, r1);
            lemma_expect(",\"line\":"@, r2);
            lemma_scan_line(line, r3);
            lemma_expect("}}"@, r4);
        },
    }
}

/// The written form of a game is read back as that game.
pub proof fn lemma_scan_reads_what_was_written(s: GameState)
    requires
        s.cells.len() == 9,
    ensures
        scan_state(state_json(s)) == Some(s),
{
    let r5 = "}"@;
    let r4 = status_json(s.status) + r5;
    let r3 = ",\"status\":"@ + r4;
    let r2 = player_json(s.turn) + r3;
    let r1 = ",\"currentPlayer\":"@ + r2;
    let r0 = cells_json(s.cells) + r1;
    assert(state_json(s) =~= "{\"board\":["@ + r0);
    lemma_expect("{\"board\":["@, r0);
    assert(s.cells.skip(0) =~= s.cells);
    assert(s.cells.take(0) =~= Seq::<Option<Player>>::empty());
    lemma_scan_cells(s.cells, 0, r1);
    lemma_expect(",\"currentPlayer\":"@, r2);
    lemma_scan_player(s.turn, r3);
    lemma_expect(",\"status\":"@, r4);
    lemma_scan_status(s.status, r5);
    lemma_expect("}"@, Seq::<char>::empty());
    assert(r5 =~= "}"@ + Seq::<char>::empty());
}

/// A place in a text: the text, its length in characters, and how many of
/// them have been read.
pub struct Cursor<'a> {
    text: &'a str,
    len: usize,
    pos: usize,
}

impl<'a> Cursor<'a> {
    /// The place holds together.
    pub closed spec fn wf(self) -> bool {
        self.len == self.text@.len() && self.pos <= self.len
    }

    /// The whole text.
    pub closed spec fn whole(self) -> Seq<char> {
        self.text@
    }

    /// The text that is left to read.
    pub closed spec fn rest(self) -> Seq<char> {
        self.text@.skip(self.pos as int)
    }

    /// The start of `text`.
    pub fn new(text: &'a str) -> (r: Cursor<'a>)
        ensures
            r.wf(),
            r.whole() == text@,
            r.rest() == text@,
    {
        let r = Cursor { text, len: text.unicode_len(), pos: 0 };
        assert(text@.skip(0) =~= text@);
        r
    }

    /// Steps over `lit` if the text goes on with it.
    pub fn expect(&mut self, lit: &str) -> (r: bool)
        requires
            old(self).wf(),
        ensures
            final(self).wf(),
            final(self).whole() == old(self).whole(),
            r ==> expect(old(self).rest(), lit@) == Some(final(self).rest()),
            !r ==> expect(old(self).rest(), lit@) is None && *final(self) == *old(self),
    {
        let n: usize = lit.unicode_len();
        if self.len - self.pos < n {
            return false;
        }
        let mut i: usize = 0;
        while i < n
            invariant
                self.wf(),
                *self == *old(self),
                i <= n,
                n == lit@.len(),
                n <= self.len - self.pos,
                forall|j: int| 0 <= j < i ==> self.text@[self.pos + j] == lit@[j],
            decreases n - i,
        {
            if self.text.get_char(self.pos + i) != lit.get_char(i) {
                assert(self.rest().subrange(0, n as int)[i as int] != lit@[i as int]);
                return false;
            }
            i += 1;
        }
        assert(self.rest().subrange(0, n as int) =~= lit@);
        assert(self.rest().skip(n as int) =~= self.text@.skip(self.pos + n));
        self.pos = self.pos + n;
        true
    }

    /// Reads `"X"` or `"O"`.
    pub fn player(&mut self) -> (r: Option<Player>)
        requires
            old(self).wf(),
        ensures
            final(self).wf(),
            final(self).whole() == old(self).whole(),
            match r {
                Some(player) => scan_player(old(self).rest()) == Some((player, final(self).rest())),
                None => scan_player(old(self).rest()) is None,
            },
    {
        if self.expect("\"X\"") {
            Some(Player::X)
        } else if self.expect("\"O\"") {
            Some(Player::O)
        } else {
            None
        }
    }

    /// Reads `null` or a player. The outer `None` says that neither stands
    /// here.
    pub fn cell(&mut self) -> (r: Option<Option<Player>>)
        requires
            old(self).wf(),
        ensures
            final(self).wf(),
            final(self).whole() == old(self).whole(),
            match r {
                Some(cell) => scan_cell(old(self).rest()) == Some((cell, final(self).rest())),
                None => scan_cell(old(self).rest()) is None,
            },
    {
        if self.expect("null") {
            Some(None)
        } else {
            match self.player() {
                Some(player) => Some(Some(player)),
                None => None,
            }
        }
    }

    /// Reads the nine cells of a board and the bracket that closes it.
    pub fn cells(&mut self) -> (r: Option<[Option<Player>; 9]>)
        requires
            old(self).wf(),
        ensures
            final(self).wf(),
            final(self).whole() == old(self).whole(),
            match r {
                Some(board) => scan_cells(old(self).rest(), 0, Seq::empty()) == Some(
                    (board@, final(self).rest()),
                ),
                None => scan_cells(old(self).rest(), 0, Seq::empty()) is None,
            },
    {
        let mut board: [Option<Player>; 9] = [None; 9];
        let mut i: usize = 0;
        assert(board@.take(0) =~= Seq::<Option<Player>>::empty());
        while i < 9
            invariant
                self.wf(),
                self.whole() == old(self).whole(),
                i <= 9,
                scan_cells(old(self).rest(), 0, Seq::empty()) == scan_cells(
                    self.rest(),
                    i as int,
                    board@.take(i as int),
                ),
            decreases 9 - i,
        {
            let ghost before = board@;
            let cell: Option<Player> = match self.cell() {
                Some(c) => c,
                None => {
                    return None;
                },
            };
            let closed: bool = if i == 8 {
                self.expect("]")
            } else {
                self.expect(",")
            };
            if !closed {
                return None;
            }
            board[i] = cell;
            assert(board@.take(i + 1) =~= before.take(i as int).push(cell));
            i += 1;
        }
        assert(board@.take(9) =~= board@);
        Some(board)
    }

    /// Reads a number: the digits that stand here, none of them for 0.
    pub fn number(&mut self) -> (r: Option<usize>)
        requires
            old(self).wf(),
        ensures
            final(self).wf(),
            final(self).whole() == old(self).whole(),
            match r {
                Some(n) => scan_digits(old(self).rest(), 0) == Some((n as int, final(self).rest())),
                None => scan_digits(old(self).rest(), 0) is None,
            },
    {
        let mut acc: usize = 0;
        while self.pos < self.len
            invariant
                self.wf(),
                self.whole() == old(self).whole(),
                scan_digits(old(self).rest(), 0) == scan_digits(self.rest(), acc as int),
            decreases self.len - self.pos,
        {
            let c: char = self.text.get_char(self.pos);
            assert(self.rest()[0] == c);
            assert(self.rest().skip(1) =~= self.text@.skip(self.pos + 1));
            if !('0' <= c && c <= '9') {
                return Some(acc);
            }
            let d: usize = match c {
                '0' => 0,
                '1' => 1,
                '2' => 2,
                '3' => 3,
                '4' => 4,
                '5' => 5,
                '6' => 6,
                '7' => 7,
                '8' => 8,
                _ => 9,
            };
            assert(d == digit_value(c));
            if acc > (usize::MAX - d) / 10 {
                return None;
            }
            acc = acc * 10 + d;
            self.pos = self.pos + 1;
        }
        Some(acc)
    }

    /// Reads three numbers in brackets.
    pub fn line(&mut self) -> (r: Option<[usize; 3]>)
        requires
            old(self).wf(),
        ensures
            final(self).wf(),
            final(self).whole() == old(self).whole(),
            match r {
                Some(line) => scan_line(old(self).rest()) == Some((line, final(self).rest())),
                None => scan_line(old(self).rest()) is None,
            },
    {
        if !self.expect("[") {
            return None;
        }
        let a: usize = match self.number() {
            Some(n) => n,
            None => {
                return None;
            },
        };
        if !self.expect(",") {
            return None;
        }
        let b: usize = match self.number() {
            Some(n) => n,
            None => {
                return None;
            },
        };
        if !self.expect(",") {
            return None;
        }
        let c: usize = match self.number() {
            Some(n) => n,
            None => {
                return None;
            },
        };
        if !self.expect("]") {
            return None;
        }
        let line: [usize; 3] = [a, b, c];
        assert(line =~= [a as int as usize, b as int as usize, c as int as usize]);
        Some(line)
    }

    /// Reads a status.
    pub fn status(&mut self) -> (r: Option<GameStatus>)
        requires
            old(self).wf(),
        ensures
            final(self).wf(),
            final(self).whole() == old(self).whole(),
            match r {
                Some(status) => scan_status(old(self).rest()) == Some((status, final(self).rest())),
                None => scan_status(old(self).rest()) is None,
            },
    {
        if self.expect("{\"type\":\"Ongoing\"}") {
            return Some(GameStatus::Ongoing);
        }
        if self.expect("{\"type\":\"Draw\"}") {
            return Some(GameStatus::Draw);
        }
        if !self.expect("{\"type\":\"Win\",\"value\":{\"player\":") {
            return None;
        }
        let player: Player = match self.player() {
            Some(p) => p,
            None => {
                return None;
            },
        };
        if !self.expect(",\"line\":") {
            return None;
        }
        let line: [usize; 3] = match self.line() {
            Some(l) => l,
            None => {
                return None;
            },
        };
        if !self.expect("}}") {
            return None;
        }
        Some(GameStatus::Win { player, line })
    }
}

/// Reads a game from the start of `text`.
pub fn scan_game(text: &str) -> (r: Option<GameEngine>)
    ensures
        match r {
            Some(engine) => scan_state(text@) == Some(engine@),
            None => scan_state(text@) is None,
        },
{
    let mut cursor = Cursor::new(text);
    if !cursor.expect("{\"board\":[") {
        return None;
    }
    let board: [Option<Player>; 9] = match cursor.cells() {
        Some(b) => b,
        None => {
            return None;
        },
    };
    if !cursor.expect(",\"currentPlayer\":") {
        return None;
    }
    let current_player: Player = match cursor.player() {
        Some(p) => p,
        None => {
            return None;
        },
    };
    if !cursor.expect(",\"status\":") {
        return None;
    }
    let status: GameStatus = match cursor.status() {
        Some(s) => s,
        None => {
            return None;
        },
    };
    if !cursor.expect("}") {
        return None;
    }
    Some(GameEngine { board, current_player, status })
}

} // verus!

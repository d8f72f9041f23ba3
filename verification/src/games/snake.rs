//! The snake game: a snake on a board that wraps around at the edges,
//! steered with W, A, S and D, that grows by one cell and scores ten points
//! for each piece of food it eats, and whose game ends when it runs into
//! itself.

use std::collections::VecDeque;
use std::time::Duration;
use std::time::SystemTime;
use std::time::SystemTimeError;

use vstd::prelude::*;
use vstd::string::StringExecFns;

use crate::input::Key;
use crate::text::decimal;
use crate::text::decimal_string;
use crate::text::push_char;

verus! {

/// The way the snake moves.
#[derive(Clone, Copy, Debug, PartialEq, Eq, Structural)]
pub enum Direction {
    Up,
    Down,
    Left,
    Right,
}

impl Direction {
    /// The direction that points the other way.
    pub open spec fn opposite(self) -> Direction {
        match self {
            Direction::Up => Direction::Down,
            Direction::Down => Direction::Up,
            Direction::Left => Direction::Right,
            Direction::Right => Direction::Left,
        }
    }
}

/// A game of snake. The snake's cells are `(x, y)` pairs, its head first.
pub struct SnakeGame {
    pub snake: VecDeque<(u16, u16)>,
    pub direction: Direction,
    pub food: (u16, u16),
    pub score: u32,
    pub is_game_over: bool,
    pub width: u16,
    pub height: u16,
}

/// What a game is, as a mathematical value.
pub struct SnakeState {
    pub snake: Seq<(u16, u16)>,
    pub direction: Direction,
    pub food: (u16, u16),
    pub score: u32,
    pub is_game_over: bool,
    pub width: u16,
    pub height: u16,
}

impl View for SnakeGame {
    type V = SnakeState;

    open spec fn view(&self) -> SnakeState {
        SnakeState {
            snake: self.snake@,
            direction: self.direction,
            food: self.food,
            score: self.score,
            is_game_over: self.is_game_over,
            width: self.width,
            height: self.height,
        }
    }
}

/// Whether `p` lies on a board of `width` by `height` cells.
pub open spec fn on_board(p: (u16, u16), width: u16, height: u16) -> bool {
    p.0 < width && p.1 < height
}

/// Where food lands when the clock reads `nanos` nanoseconds.
pub open spec fn food_at(nanos: u128, width: u16, height: u16) -> (u16, u16) {
    ((nanos % (width as u128)) as u16, ((nanos / 4) % (height as u128)) as u16)
}

/// Whether `food` is a place that some clock reading puts food on.
pub open spec fn food_from_clock(food: (u16, u16), width: u16, height: u16) -> bool {
    exists|nanos: u128| food == food_at(nanos, width, height)
}

impl SnakeState {
    /// The game as it starts: a snake of three cells heading right, on a
    /// board of 30 by 10 cells.
    pub open spec fn initial() -> SnakeState {
        SnakeState {
            snake: seq![(10u16, 5u16), (9u16, 5u16), (8u16, 5u16)],
            direction: Direction::Right,
            food: (15, 4),
            score: 0,
            is_game_over: false,
            width: 30,
            height: 10,
        }
    }

    /// The snake's first cell.
    pub open spec fn head(self) -> (u16, u16) {
        self.snake[0]
    }

    /// The cell that the head moves to, wrapping around at the edges.
    pub open spec fn next_head(self) -> (u16, u16) {
        let (x, y) = self.head();
        match self.direction {
            Direction::Up => (x, if y == 0 { (self.height - 1) as u16 } else { (y - 1) as u16 }),
            Direction::Down => (x, ((y + 1) % (self.height as int)) as u16),
            Direction::Left => (if x == 0 { (self.width - 1) as u16 } else { (x - 1) as u16 }, y),
            Direction::Right => ((((x + 1) % (self.width as int)) as u16), y),
        }
    }

    /// Whether the next move runs the snake into itself.
    pub open spec fn hits_itself(self) -> bool {
        self.snake.contains(self.next_head())
    }

    /// Whether the next move eats the food.
    pub open spec fn eats(self) -> bool {
        !self.is_game_over && !self.hits_itself() && self.next_head() == self.food
    }

    /// Whether a move can be made without overflow or a division by zero.
    pub open spec fn can_step(self) -> bool {
        !self.is_game_over ==> {
            &&& self.snake.len() > 0
            &&& (self.direction == Direction::Up || self.direction == Direction::Down)
                ==> self.height > 0
            &&& (self.direction == Direction::Left || self.direction == Direction::Right)
                ==> self.width > 0
            &&& self.direction == Direction::Right ==> self.head().0 < u16::MAX
            &&& self.direction == Direction::Down ==> self.head().1 < u16::MAX
            &&& self.eats() ==> self.width > 0 && self.height > 0 && self.score <= u32::MAX - 10
        }
    }

    /// The game after one move, where `new_food` is where food lands if the
    /// move eats it.
    pub open spec fn stepped(self, new_food: (u16, u16)) -> SnakeState {
        if self.is_game_over {
            self
        } else if self.hits_itself() {
            SnakeState { is_game_over: true, ..self }
        } else if self.next_head() == self.food {
            SnakeState {
                snake: seq![self.next_head()] + self.snake,
                score: (self.score + 10) as u32,
                food: new_food,
                ..self
            }
        } else {
            SnakeState { snake: (seq![self.next_head()] + self.snake).drop_last(), ..self }
        }
    }

    /// The game after a key press.
    pub open spec fn after_key(self, key: Key) -> SnakeState {
        if self.is_game_over {
            if key == Key::Char('r') || key == Key::Char('R') {
                SnakeState::initial()
            } else {
                self
            }
        } else if (key == Key::Char('w') || key == Key::Char('W')) && self.direction
            != Direction::Down {
            SnakeState { direction: Direction::Up, ..self }
        } else if (key == Key::Char('s') || key == Key::Char('S')) && self.direction
            != Direction::Up {
            SnakeState { direction: Direction::Down, ..self }
        } else if (key == Key::Char('a') || key == Key::Char('A')) && self.direction
            != Direction::Right {
            SnakeState { direction: Direction::Left, ..self }
        } else if (key == Key::Char('d') || key == Key::Char('D')) && self.direction
            != Direction::Left {
            SnakeState { direction: Direction::Right, ..self }
        } else {
            self
        }
    }

    /// The board has cells, the snake has a head, and every cell of the
    /// snake lies on the board.
    pub open spec fn wf(self) -> bool {
        &&& self.width > 0
        &&& self.height > 0
        &&& self.snake.len() > 0
        &&& forall|i: int|
            0 <= i < self.snake.len() ==> on_board(#[trigger] self.snake[i], self.width, self.height)
    }

    /// No cell of the snake is taken twice.
    pub open spec fn no_overlap(self) -> bool {
        forall|i: int, j: int|
            0 <= i < j < self.snake.len() ==> #[trigger] self.snake[i] != #[trigger] self.snake[j]
    }

    /// The score is ten points for each cell the snake has grown by.
    pub open spec fn score_counts_growth(self) -> bool {
        self.score == 10 * (self.snake.len() - 3)
    }

    /// The food lies on the board.
    pub open spec fn food_on_board(self) -> bool {
        on_board(self.food, self.width, self.height)
    }
}

/// What the board shows at column `x`, row `y`: the snake over the food
/// over empty ground.
pub open spec fn cell_char(s: SnakeState, x: int, y: int) -> char {
    if s.snake.contains((x as u16, y as u16)) {
        '■'
    } else if s.food == (x as u16, y as u16) {
        '🍎'
    } else {
        ' '
    }
}

/// The first `k` cells of row `y`.
pub open spec fn row_cells(s: SnakeState, y: int, k: nat) -> Seq<char>
    decreases k,
{
    if k == 0 {
        seq![]
    } else {
        row_cells(s, y, (k - 1) as nat).push(cell_char(s, k - 1, y))
    }
}

/// The first `k` rows of the board, each indented by two spaces and ended
/// by a line break.
pub open spec fn board_rows(s: SnakeState, k: nat) -> Seq<char>
    decreases k,
{
    if k == 0 {
        seq![]
    } else {
        board_rows(s, (k - 1) as nat) + seq![' ', ' '] + row_cells(s, k - 1, s.width as nat)
            + seq!['\n']
    }
}

/// The text the snake screen shows: the final score after a game over,
/// else the score above the board.
pub open spec fn snake_text(s: SnakeState) -> Seq<char> {
    if s.is_game_over {
        "\n   GAME OVER!\n   Score: "@ + decimal(s.score as nat) + "\n   Press 'R' to Restart"@
    } else {
        " Score: "@ + decimal(s.score as nat) + "\n\n"@ + board_rows(s, s.height as nat)
    }
}

/// A move keeps the snake whole: on a board with cells, a snake on the
/// board stays on it, and a snake that does not overlap itself does not
/// start to, wherever new food lands.
pub proof fn step_keeps_snake_whole(s: SnakeState, new_food: (u16, u16))
    ensures
        s.wf() ==> s.stepped(new_food).wf(),
        s.no_overlap() ==> s.stepped(new_food).no_overlap(),
{
    let t = s.stepped(new_food);
    if !s.is_game_over && !s.hits_itself() && s.snake.len() > 0 {
        let grown = seq![s.next_head()] + s.snake;
        assert(t.snake.len() <= grown.len());
        assert forall|i: int| 0 <= i < t.snake.len() implies #[trigger] t.snake[i] == grown[i] by {
        }
        if s.wf() {
            assert forall|i: int| 0 <= i < t.snake.len() implies on_board(
                #[trigger] t.snake[i],
                t.width,
                t.height,
            ) by {
                assert(t.snake[i] == grown[i]);
                if i > 0 {
                    assert(grown[i] == s.snake[i - 1]);
                }
            }
        }
        if s.no_overlap() {
            assert forall|i: int, j: int| 0 <= i < j < t.snake.len() implies #[trigger] t.snake[i]
                != #[trigger] t.snake[j] by {
                assert(t.snake[i] == grown[i]);
                assert(t.snake[j] == grown[j]);
                assert(grown[j] == s.snake[j - 1]);
                if i > 0 {
                    assert(grown[i] == s.snake[i - 1]);
                }
            }
        }
    }
}

/// A move keeps the score at ten points for each cell the snake has grown
/// by, wherever new food lands, as long as the score does not overflow.
pub proof fn step_keeps_score_count(s: SnakeState, new_food: (u16, u16))
    requires
        s.eats() ==> s.score <= u32::MAX - 10,
    ensures
        s.score_counts_growth() ==> s.stepped(new_food).score_counts_growth(),
{
}

/// The cell next to `head` in direction `dir` on a board of `width` by
/// `height` cells whose edges wrap around.
pub open spec fn neighbour(head: (u16, u16), dir: Direction, width: u16, height: u16) -> (u16, u16) {
    let (x, y) = (head.0 as int, head.1 as int);
    let (w, h) = (width as int, height as int);
    match dir {
        Direction::Left => (((x + w - 1) % w) as u16, head.1),
        Direction::Right => (((x + 1) % w) as u16, head.1),
        Direction::Up => (head.0, ((y + h - 1) % h) as u16),
        Direction::Down => (head.0, ((y + 1) % h) as u16),
    }
}

/// A move takes the head to the neighbouring cell in its direction, the
/// edges wrapping around: the game ends exactly when the snake already
/// holds that cell, and otherwise that cell becomes the new head, with the
/// rest of the snake following.
pub proof fn move_goes_to_neighbour(s: SnakeState, new_food: (u16, u16))
    requires
        s.wf(),
        !s.is_game_over,
    ensures
        ({
            let cell = neighbour(s.head(), s.direction, s.width, s.height);
            let t = s.stepped(new_food);
            &&& s.next_head() == cell
            &&& t.is_game_over == s.snake.contains(cell)
            &&& !t.is_game_over ==> t.snake[0] == cell && t.snake.len() >= 1 && forall|i: int|
                1 <= i < t.snake.len() ==> t.snake[i] == s.snake[i - 1]
            &&& (s.direction == Direction::Left || s.direction == Direction::Right) && s.width > 1
                ==> cell != s.head()
            &&& (s.direction == Direction::Up || s.direction == Direction::Down) && s.height > 1
                ==> cell != s.head()
        }),
{
    assert(on_board(s.snake[0], s.width, s.height));
    let cell = neighbour(s.head(), s.direction, s.width, s.height);
    let t = s.stepped(new_food);
    let (x, y) = (s.head().0 as nat, s.head().1 as nat);
    let (w, h) = (s.width as nat, s.height as nat);
    if x == 0 {
        vstd::arithmetic::div_mod::lemma_small_mod((w - 1) as nat, w);
    } else {
        vstd::arithmetic::div_mod::lemma_mod_add_multiples_vanish((x - 1) as int, w as int);
        vstd::arithmetic::div_mod::lemma_small_mod((x - 1) as nat, w);
        assert((x + w - 1) % (w as int) == x - 1);
    }
    if y == 0 {
        vstd::arithmetic::div_mod::lemma_small_mod((h - 1) as nat, h);
    } else {
        vstd::arithmetic::div_mod::lemma_mod_add_multiples_vanish((y - 1) as int, h as int);
        vstd::arithmetic::div_mod::lemma_small_mod((y - 1) as nat, h);
        assert((y + h - 1) % (h as int) == y - 1);
    }
    if x + 1 < w {
        vstd::arithmetic::div_mod::lemma_small_mod((x + 1) as nat, w);
    } else {
        vstd::arithmetic::div_mod::lemma_mod_self_0(w as int);
    }
    if y + 1 < h {
        vstd::arithmetic::div_mod::lemma_small_mod((y + 1) as nat, h);
    } else {
        vstd::arithmetic::div_mod::lemma_mod_self_0(h as int);
    }
    assert(s.next_head() == cell);
    if !s.hits_itself() {
        let grown = seq![s.next_head()] + s.snake;
        assert forall|i: int| 1 <= i < t.snake.len() implies t.snake[i] == s.snake[i - 1] by {
            assert(t.snake[i] == grown[i]);
        }
        assert(t.snake[0] == grown[0]);
    }
}

/// W, S, A and D, in either case, turn the snake up, down, left and right
/// while the game runs, unless that is straight back the way it heads;
/// nothing else of the game changes.
pub proof fn keys_steer(s: SnakeState)
    requires
        !s.is_game_over,
    ensures
        s.direction != Direction::Down ==> s.after_key(Key::Char('w')) == (SnakeState {
            direction: Direction::Up,
            ..s
        }) && s.after_key(Key::Char('W')) == (SnakeState { direction: Direction::Up, ..s }),
        s.direction != Direction::Up ==> s.after_key(Key::Char('s')) == (SnakeState {
            direction: Direction::Down,
            ..s
        }) && s.after_key(Key::Char('S')) == (SnakeState { direction: Direction::Down, ..s }),
        s.direction != Direction::Right ==> s.after_key(Key::Char('a')) == (SnakeState {
            direction: Direction::Left,
            ..s
        }) && s.after_key(Key::Char('A')) == (SnakeState { direction: Direction::Left, ..s }),
        s.direction != Direction::Left ==> s.after_key(Key::Char('d')) == (SnakeState {
            direction: Direction::Right,
            ..s
        }) && s.after_key(Key::Char('D')) == (SnakeState { direction: Direction::Right, ..s }),
        s.direction == Direction::Down ==> s.after_key(Key::Char('w')) == s && s.after_key(
            Key::Char('W'),
        ) == s,
        s.direction == Direction::Up ==> s.after_key(Key::Char('s')) == s && s.after_key(
            Key::Char('S'),
        ) == s,
        s.direction == Direction::Right ==> s.after_key(Key::Char('a')) == s && s.after_key(
            Key::Char('A'),
        ) == s,
        s.direction == Direction::Left ==> s.after_key(Key::Char('d')) == s && s.after_key(
            Key::Char('D'),
        ) == s,
{
}

/// One move grows the snake by one cell and the score by ten points when
/// it eats, and changes neither otherwise.
pub proof fn step_growth(s: SnakeState, new_food: (u16, u16))
    requires
        s.can_step(),
    ensures
        s.eats() ==> s.stepped(new_food).snake.len() == s.snake.len() + 1
            && s.stepped(new_food).score == s.score + 10,
        !s.eats() ==> s.stepped(new_food).snake.len() == s.snake.len()
            && s.stepped(new_food).score == s.score,
{
}

/// After a game over, moves change nothing, R starts a new game, and every
/// other key is ignored.
pub proof fn game_over_holds(s: SnakeState, new_food: (u16, u16), key: Key)
    requires
        s.is_game_over,
    ensures
        s.stepped(new_food) == s,
        s.after_key(key) == (if key == Key::Char('r') || key == Key::Char('R') {
            SnakeState::initial()
        } else {
            s
        }),
{
}

#[verifier::external_type_specification]
#[verifier::external_body]
pub struct ExSystemTime(SystemTime);

#[verifier::external_type_specification]
#[verifier::external_body]
pub struct ExSystemTimeError(SystemTimeError);

/// std's `SystemTime::now`: the time of the system clock. Nothing is
/// stated of it.
#[verifier::external_body]
fn system_now() -> SystemTime {
    SystemTime::now()
}

/// std's `SystemTime::duration_since`, against the Unix epoch: the time
/// since 1970-01-01, or an error for a clock set before it. Nothing is
/// stated of it.
#[verifier::external_body]
fn since_epoch(t: &SystemTime) -> Result<Duration, SystemTimeError> {
    t.duration_since(SystemTime::UNIX_EPOCH)
}

/// std's `Duration::as_nanos`: the whole nanoseconds of a duration. The
/// duration is opaque here, so nothing is stated of the number.
#[verifier::external_body]
fn duration_nanos(d: &Duration) -> u128 {
    d.as_nanos()
}

fn snake_contains(snake: &VecDeque<(u16, u16)>, p: (u16, u16)) -> (r: bool)
    ensures
        r == snake@.contains(p),
{
    let n = snake.len();
    let mut i: usize = 0;
    while i < n
        invariant
            n == snake@.len(),
            i <= n,
            forall|j: int| 0 <= j < i ==> snake@[j] != p,
        decreases n - i,
    {
        let q = snake[i];
        if q.0 == p.0 && q.1 == p.1 {
            assert(snake@[i as int] == p);
            return true;
        }
        i = i + 1;
    }
    false
}

impl SnakeGame {
    /// A new game: a snake of three cells at (10, 5), (9, 5), (8, 5) heading
    /// right, food at (15, 4), score 0, on a board of 30 by 10 cells.
    pub fn new() -> (g: SnakeGame)
        ensures
            g@ == SnakeState::initial(),
            g@.wf(),
            g@.no_overlap(),
            g@.score_counts_growth(),
            g@.food_on_board(),
    {
        let mut snake = VecDeque::new();
        snake.push_back((10, 5));
        snake.push_back((9, 5));
        snake.push_back((8, 5));
        let g = SnakeGame {
            snake,
            direction: Direction::Right,
            food: (15, 4),
            score: 0,
            is_game_over: false,
            width: 30,
            height: 10,
        };
        assert(g@.snake =~= seq![(10u16, 5u16), (9u16, 5u16), (8u16, 5u16)]);
        g
    }

    /// Reacts to a key. After a game over, R (either case) starts a new
    /// game and every other key is ignored. Otherwise W, S, A, D (either
    /// case) turn the snake up, down, left and right, except straight back
    /// the way it is heading.
    pub fn handle_input(&mut self, key: Key)
        ensures
            final(self)@ == old(self)@.after_key(key),
            !old(self).is_game_over ==> final(self).direction != old(self).direction.opposite(),
            old(self)@.wf() ==> final(self)@.wf(),
            old(self)@.no_overlap() ==> final(self)@.no_overlap(),
            old(self)@.score_counts_growth() ==> final(self)@.score_counts_growth(),
            old(self)@.food_on_board() ==> final(self)@.food_on_board(),
    {
        if self.is_game_over {
            match key {
                Key::Char('r') | Key::Char('R') => {
                    *self = SnakeGame::new();
                },
                _ => {},
            }
            return ;
        }
        if (key == Key::Char('w') || key == Key::Char('W')) && self.direction != Direction::Down {
            self.direction = Direction::Up;
        } else if (key == Key::Char('s') || key == Key::Char('S')) && self.direction
            != Direction::Up {
            self.direction = Direction::Down;
        } else if (key == Key::Char('a') || key == Key::Char('A')) && self.direction
            != Direction::Right {
            self.direction = Direction::Left;
        } else if (key == Key::Char('d') || key == Key::Char('D')) && self.direction
            != Direction::Left {
            self.direction = Direction::Right;
        }
    }

    /// Puts the food where a clock reading of `nanos` nanoseconds says:
    /// column `nanos % width`, row `(nanos >> 2) % height`.
    pub fn place_food(&mut self, nanos: u128)
        requires
            old(self).width > 0,
            old(self).height > 0,
        ensures
            final(self)@ == (SnakeState {
                food: food_at(nanos, old(self).width, old(self).height),
                ..old(self)@
            }),
            final(self)@.food_on_board(),
    {
        assert(nanos >> 2 == nanos / 4) by (bit_vector);
        let next_x = (nanos % (self.width as u128)) as u16;
        let next_y = ((nanos >> 2) % (self.height as u128)) as u16;
        self.food = (next_x, next_y);
    }

    /// Drops food at a place that the system clock picks: the nanoseconds
    /// since the Unix epoch, where a clock set before the epoch reads 0.
    fn spawn_food(&mut self)
        requires
            old(self).width > 0,
            old(self).height > 0,
        ensures
            final(self)@ == (SnakeState { food: final(self).food, ..old(self)@ }),
            food_from_clock(final(self).food, old(self).width, old(self).height),
    {
        let now = system_now();
        let nanos = match since_epoch(&now) {
            Ok(d) => duration_nanos(&d),
            Err(_) => 0,
        };
        self.place_food(nanos);
    }

    /// The cell the head moves to next.
    fn next_cell(&self) -> (c: (u16, u16))
        requires
            self@.snake.len() > 0,
            (self.direction == Direction::Up || self.direction == Direction::Down) ==> self.height
                > 0,
            (self.direction == Direction::Left || self.direction == Direction::Right) ==> self.width
                > 0,
            self.direction == Direction::Right ==> self@.head().0 < u16::MAX,
            self.direction == Direction::Down ==> self@.head().1 < u16::MAX,
        ensures
            c == self@.next_head(),
    {
        let head = self.snake[0];
        match self.direction {
            Direction::Up => {
                let wrap = self.height - 1;
                (head.0, head.1.checked_sub(1).unwrap_or(wrap))
            },
            Direction::Down => (head.0, (head.1 + 1) % self.height),
            Direction::Left => {
                let wrap = self.width - 1;
                (head.0.checked_sub(1).unwrap_or(wrap), head.1)
            },
            Direction::Right => ((head.0 + 1) % self.width, head.1),
        }
    }

    /// Whether `update` can be called: whether the next move is free of
    /// overflow and of a division by zero.
    pub fn can_update(&self) -> (r: bool)
        ensures
            r == self@.can_step(),
    {
        if self.is_game_over {
            return true;
        }
        if self.snake.len() == 0 {
            return false;
        }
        let vertical = self.direction == Direction::Up || self.direction == Direction::Down;
        if vertical && self.height == 0 || !vertical && self.width == 0 {
            return false;
        }
        let head = self.snake[0];
        if self.direction == Direction::Right && head.0 == u16::MAX || self.direction
            == Direction::Down && head.1 == u16::MAX {
            return false;
        }
        let c = self.next_cell();
        let eats = !snake_contains(&self.snake, c) && c.0 == self.food.0 && c.1 == self.food.1;
        !eats || self.width > 0 && self.height > 0 && self.score <= u32::MAX - 10
    }

    /// Moves the snake one cell in its direction, wrapping around at the
    /// edges. Running into itself ends the game; moving onto the food grows
    /// the snake by a cell, scores ten points and drops new food; any other
    /// move keeps its length. After a game over nothing changes.
    pub fn update(&mut self)
        requires
            old(self)@.can_step(),
        ensures
            final(self)@ == old(self)@.stepped(final(self).food),
            old(self)@.eats() ==> food_from_clock(
                final(self).food,
                old(self).width,
                old(self).height,
            ),
            old(self)@.wf() ==> final(self)@.wf(),
            old(self)@.no_overlap() ==> final(self)@.no_overlap(),
            old(self)@.score_counts_growth() ==> final(self)@.score_counts_growth(),
            old(self)@.wf() && old(self)@.food_on_board() ==> final(self)@.food_on_board(),
    {
        if self.is_game_over {
            return ;
        }
        let ghost s = self@;
        let new_head = self.next_cell();
        assert(new_head == s.next_head());
        if snake_contains(&self.snake, new_head) {
            self.is_game_over = true;
            return ;
        }
        self.snake.push_front(new_head);
        if new_head.0 == self.food.0 && new_head.1 == self.food.1 {
            self.score = self.score + 10;
            self.spawn_food();
        } else {
            let _ = self.snake.pop_back();
            assert(self@.snake =~= (seq![s.next_head()] + s.snake).drop_last());
        }
        proof {
            step_keeps_snake_whole(s, self.food);
            step_keeps_score_count(s, self.food);
        }
    }

    /// The text the snake screen shows.
    pub fn screen_text(&self) -> (t: String)
        ensures
            t@ == snake_text(self@),
    {
        if self.is_game_over {
            let mut t = String::from_str("\n   GAME OVER!\n   Score: ");
            let n = decimal_string(self.score as u64);
            t.append(n.as_str());
            t.append("\n   Press 'R' to Restart");
            return t;
        }
        let mut t = String::from_str(" Score: ");
        let n = decimal_string(self.score as u64);
        t.append(n.as_str());
        t.append("\n\n");
        let ghost head = t@;
        let mut y: u16 = 0;
        while y < self.height
            invariant
                y <= self.height,
                t@ == head + board_rows(self@, y as nat),
            decreases self.height - y,
        {
            push_char(&mut t, ' ');
            push_char(&mut t, ' ');
            let ghost row_start = t@;
            let mut x: u16 = 0;
            while x < self.width
                invariant
                    x <= self.width,
                    y < self.height,
                    t@ == row_start + row_cells(self@, y as int, x as nat),
                decreases self.width - x,
            {
                let c = if snake_contains(&self.snake, (x, y)) {
                    '■'
                } else if self.food.0 == x && self.food.1 == y {
                    '🍎'
                } else {
                    ' '
                };
                push_char(&mut t, c);
                x = x + 1;
                assert(t@ =~= row_start + row_cells(self@, y as int, x as nat));
            }
            push_char(&mut t, '\n');
            y = y + 1;
            assert(t@ =~= head + board_rows(self@, y as nat));
        }
        t
    }
}

} // verus!

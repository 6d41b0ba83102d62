//! The rules of a round as mathematics: a model of the whole game state and,
//! for every step the game can take, the function from the state before to
//! the state after. Chance enters a step only as the pieces drawn in it.

use vstd::prelude::*;

use crate::blocks::{Screen, Sound};
use crate::field::{
    any_line_filled, collides, compacted, full_lines, line_filled, merged, FIELD_HEIGHT,
    FIELD_WIDTH,
};
use crate::geometry::Point;
use crate::grid::{blank, cell, is_grid, row_full, Grid};
use crate::input::{InputView, Key};
use crate::tetromino::FRAME_SIDE;
use crate::time::{lemma_blink_fires_once, BlinkView, RepeatView, TimerView, BLINK_CHANGES, BLINK_PERIOD};
use crate::video::{decimal, glyph, ScreenView};
use crate::Number;
use vstd::string::StringSliceAdditionalSpecFns;

verus! {

/// Number of shapes in the catalog.
pub const SHAPES: usize = 7;

/// The score never rises above this.
pub const MAX_SCORE: Number = 9_999_999;

/// Points that separate one level from the next.
pub const LEVEL_STEP: Number = 5000;

/// The last level; the fall does not speed up beyond it.
pub const MAX_LEVEL: Number = 9;

/// Points awarded by the bonus key.
pub const BONUS: Number = 5000;

/// Ticks before a held direction key repeats for the first time.
pub const REPEAT_DELAY: Number = 30;

/// Ticks between repeats of a held left or right key.
pub const SIDE_REPEAT: Number = 5;

/// Ticks between repeats of a held down key.
pub const DOWN_REPEAT: Number = 3;

/// The byte that marks a filled cell on the screen.
pub const BLOCK: u8 = 0xb1;

/// The character that the border of the field is drawn with.
pub const BORDER: char = '+';

/// Points for the lines removed in one compaction.
pub open spec fn score_for_lines(lines: int) -> int {
    if lines <= 0 {
        0
    } else if lines == 1 {
        100
    } else if lines == 2 {
        250
    } else if lines == 3 {
        500
    } else {
        1000
    }
}

/// The score after `lines` lines were removed: the points are added and the
/// sum is capped.
pub open spec fn score_after(score: int, lines: int) -> int {
    if score + score_for_lines(lines) < MAX_SCORE {
        score + score_for_lines(lines)
    } else {
        MAX_SCORE as int
    }
}

/// The level reached with a score: one level per step of points, from zero
/// up to the last level.
pub open spec fn level_of(score: int) -> int {
    if score < 0 {
        0
    } else if score / (LEVEL_STEP as int) < MAX_LEVEL {
        score / (LEVEL_STEP as int)
    } else {
        MAX_LEVEL as int
    }
}

/// Ticks between two steps of the fall at a level: slowest at level zero,
/// fastest from the last level on.
pub open spec fn fall_period_of(level: int) -> int {
    if level <= 0 {
        120
    } else if level == 1 {
        60
    } else if level == 2 {
        50
    } else if level == 3 {
        40
    } else if level == 4 {
        34
    } else if level == 5 {
        28
    } else if level == 6 {
        24
    } else if level == 7 {
        16
    } else if level == 8 {
        10
    } else {
        8
    }
}

/// Where a new piece appears: centred, two rows above the field.
pub open spec fn spawn_point() -> Point {
    Point { x: 3, y: -2i32 }
}

/// Where the field is drawn on the screen.
pub open spec fn field_origin() -> Point {
    Point { x: 3, y: 3 }
}

/// The point `p` moved by `dx` columns and `dy` rows.
pub open spec fn shifted(p: Point, dx: int, dy: int) -> Point {
    Point { x: (p.x + dx) as Number, y: (p.y + dy) as Number }
}

/// Mathematical model of the game state.
pub struct StateView {
    /// The catalog: for each shape its four rotation slots.
    pub pieces: Seq<Seq<Grid>>,
    pub curr_frame: int,
    pub curr_tet: int,
    pub next_tet: int,
    pub field: Grid,
    pub tet_pos: Point,
    pub fall_timer: TimerView,
    pub animation: BlinkView,
    pub screen: Screen,
    pub popup: Option<Screen>,
    pub left: RepeatView,
    pub right: RepeatView,
    pub down: RepeatView,
    pub score: int,
    pub field_pos: Point,
}

impl StateView {
    /// The state before the first round: everything at rest, the game
    /// screen up, the field empty.
    pub open spec fn at_rest(pieces: Seq<Seq<Grid>>) -> StateView {
        StateView {
            pieces,
            curr_frame: 0,
            curr_tet: 0,
            next_tet: 0,
            field: blank(FIELD_WIDTH as int, FIELD_HEIGHT as int),
            tet_pos: Point { x: 0, y: 0 },
            fall_timer: TimerView::fresh(fall_period_of(level_of(0))),
            animation: BlinkView::fresh(),
            screen: Screen::Game,
            popup: None,
            left: RepeatView::fresh(REPEAT_DELAY as int, SIDE_REPEAT as int),
            right: RepeatView::fresh(REPEAT_DELAY as int, SIDE_REPEAT as int),
            down: RepeatView::fresh(REPEAT_DELAY as int, DOWN_REPEAT as int),
            score: 0,
            field_pos: field_origin(),
        }
    }

    /// The state in which a game begins: the first round has been entered
    /// with the pieces `current` and `next`.
    pub open spec fn initial(pieces: Seq<Seq<Grid>>, current: int, next: int) -> StateView {
        StateView::at_rest(pieces).enter(Screen::Game, current, next)
    }

    /// Sizes, ranges and bounds that hold of every state: the catalog has
    /// seven shapes of four square frames, the indices point into it, the
    /// field has its size, the piece is anchored within reach of the field,
    /// the score is within its cap, and only the pause screen pops up.
    pub open spec fn shaped(self) -> bool {
        &&& self.pieces.len() == SHAPES
        &&& forall|piece: int| 0 <= piece < SHAPES ==> (#[trigger] self.pieces[piece]).len() == 4
        &&& forall|piece: int, rotation: int|
            0 <= piece < SHAPES && 0 <= rotation < 4 ==> is_grid(
                #[trigger] self.pieces[piece][rotation],
                FRAME_SIDE as int,
                FRAME_SIDE as int,
            )
        &&& 0 <= self.curr_frame < 4
        &&& 0 <= self.curr_tet < SHAPES
        &&& 0 <= self.next_tet < SHAPES
        &&& is_grid(self.field, FIELD_WIDTH as int, FIELD_HEIGHT as int)
        &&& -FRAME_SIDE < self.tet_pos.x < FIELD_WIDTH
        &&& spawn_point().y <= self.tet_pos.y < FIELD_HEIGHT
        &&& self.animation.wf()
        &&& 0 <= self.score <= MAX_SCORE
        &&& self.field_pos == field_origin()
        &&& (self.popup is None || self.popup == Some(Screen::Pause))
    }

    /// The piece is in a legal position.
    pub open spec fn legal(self) -> bool {
        !collides(self.field, self.current_frame(), self.tet_pos)
    }

    /// The state between two steps of a tick: the piece is in a legal
    /// position unless the line-clear animation holds it.
    pub open spec fn movable(self) -> bool {
        self.shaped() && (self.animation.is_started() || self.legal())
    }

    /// What holds of every state between two calls: it is shaped, and while
    /// the game screen is up the piece is in a legal position unless the
    /// line-clear animation is still running.
    pub open spec fn wf(self) -> bool {
        &&& self.shaped()
        &&& self.screen == Screen::Game ==> self.animation.is_not_triggered_yet() || self.legal()
    }

    /// The screen that input and ticks go to: the popup if there is one.
    pub open spec fn active_screen(self) -> Screen {
        match self.popup {
            Some(popup) => popup,
            None => self.screen,
        }
    }

    /// The frame in rotation slot `rotation` of the current shape.
    pub open spec fn frame(self, rotation: int) -> Grid {
        self.pieces[self.curr_tet][rotation]
    }

    pub open spec fn current_frame(self) -> Grid {
        self.frame(self.curr_frame)
    }

    pub open spec fn next_frame(self) -> int {
        (self.curr_frame + 1) % 4
    }

    /// The piece is merged into the field.
    pub open spec fn copy_frame(self) -> StateView {
        StateView { field: merged(self.field, self.current_frame(), self.tet_pos), ..self }
    }

    /// The attempt to move the piece to `new_pos`. Nothing moves while the
    /// line-clear animation runs. Otherwise the move is made if the new
    /// position is legal, and also if the present one is not.
    pub open spec fn move_colliding_tetromino(self, new_pos: Point) -> StateView {
        if self.animation.is_started() {
            self
        } else if !self.legal() || !collides(self.field, self.current_frame(), new_pos) {
            StateView { tet_pos: new_pos, ..self }
        } else {
            self
        }
    }

    /// The attempt to turn the piece to its next rotation slot, under the
    /// same rule as a move.
    pub open spec fn rotate_colliding_tetromino(self) -> StateView {
        if self.animation.is_started() {
            self
        } else if !self.legal() || !collides(
            self.field,
            self.frame(self.next_frame()),
            self.tet_pos,
        ) {
            StateView { curr_frame: self.next_frame(), ..self }
        } else {
            self
        }
    }

    /// All three key repeaters rest.
    pub open spec fn repeaters_stopped(self) -> StateView {
        StateView {
            left: self.left.stop(),
            right: self.right.stop(),
            down: self.down.stop(),
            ..self
        }
    }

    /// What entering a screen does. The game screen begins a round with the
    /// pieces `current` and `next`: score zero, the fall timer running at
    /// the pace of level zero, the field empty, the piece at the spawn
    /// point. The pause screen rests the key repeaters. The retry screen
    /// changes nothing.
    pub open spec fn enter(self, screen: Screen, current: int, next: int) -> StateView {
        match screen {
            Screen::Game => StateView {
                score: 0,
                fall_timer: TimerView::fresh(fall_period_of(level_of(0))).start(),
                curr_tet: current,
                next_tet: next,
                curr_frame: 0,
                field: blank(FIELD_WIDTH as int, FIELD_HEIGHT as int),
                tet_pos: spawn_point(),
                ..self
            },
            Screen::Retry => self,
            Screen::Pause => self.repeaters_stopped(),
        }
    }

    /// The main screen becomes `screen` and is entered, unless it is the
    /// main screen already.
    pub open spec fn change_screen(self, screen: Screen, current: int, next: int) -> StateView {
        if self.screen == screen {
            self
        } else {
            (StateView { screen, ..self }).enter(screen, current, next)
        }
    }

    /// `popup` is laid over the main screen and entered, unless a popup is up already.
    pub open spec fn open_popup_screen(self, popup: Screen, current: int, next: int) -> StateView {
        if self.popup is None {
            (StateView { popup: Some(popup), ..self }).enter(popup, current, next)
        } else {
            self
        }
    }

    /// The popup is taken away; the main screen is not entered again.
    pub open spec fn close_popup_screen(self) -> StateView {
        StateView { popup: None, ..self }
    }

    /// The turn ends: the repeaters rest, the next piece becomes the current
    /// one in its first rotation at the spawn point, and `next` is the piece
    /// after it. If the new piece collides where it appears, the game is
    /// over and the retry screen comes up.
    pub open spec fn finish_turn(self, next: int) -> StateView {
        let spawned = StateView {
            curr_tet: self.next_tet,
            next_tet: next,
            curr_frame: 0,
            tet_pos: spawn_point(),
            ..self.repeaters_stopped()
        };
        if spawned.legal() {
            spawned
        } else {
            spawned.change_screen(Screen::Retry, 0, 0)
        }
    }

    /// One step of the fall. A piece in an illegal position stays. A piece
    /// that can go down one row does. A piece that cannot has landed: it is
    /// merged into the field, and then either a completed line starts the
    /// blink animation and stops the fall timer, or the turn ends with
    /// `next` as the piece drawn.
    pub open spec fn move_down(self, next: int) -> StateView {
        if !self.legal() {
            self
        } else if !collides(self.field, self.current_frame(), shifted(self.tet_pos, 0, 1)) {
            StateView { tet_pos: shifted(self.tet_pos, 0, 1), ..self }
        } else {
            let landed = self.copy_frame();
            if any_line_filled(landed.field) {
                StateView {
                    animation: landed.animation.start(),
                    fall_timer: landed.fall_timer.stop(),
                    ..landed
                }
            } else {
                landed.finish_turn(next)
            }
        }
    }

    /// The points for `lines` removed lines are added to the score.
    pub open spec fn update_score(self, lines: int) -> StateView {
        StateView { score: score_after(self.score, lines), ..self }
    }

    /// The fall timer is made anew, at rest, with the period of the level
    /// that the score has reached.
    pub open spec fn actualize_level(self) -> StateView {
        StateView { fall_timer: TimerView::fresh(fall_period_of(level_of(self.score))), ..self }
    }

    /// The bonus key: points are added within the cap, and the fall timer
    /// starts over at the pace of the level reached.
    pub open spec fn award_bonus(self) -> StateView {
        let score = if self.score + BONUS < MAX_SCORE {
            self.score + BONUS
        } else {
            MAX_SCORE as int
        };
        StateView {
            score,
            fall_timer: TimerView::fresh(fall_period_of(level_of(score))).start(),
            ..self
        }
    }

    /// How the game screen reacts to the key edges of one tick. Released
    /// direction keys rest their repeaters. Then the first that applies: up
    /// turns the piece; down, left and right move it by one cell and start
    /// their repeater, left and right resting the other's; escape opens the
    /// pause popup; the bonus key awards its points.
    pub open spec fn handle_input_game(self, input: InputView) -> StateView {
        let released = StateView {
            left: if input.is_back_edge(Key::Left) {
                self.left.stop()
            } else {
                self.left
            },
            right: if input.is_back_edge(Key::Right) {
                self.right.stop()
            } else {
                self.right
            },
            down: if input.is_back_edge(Key::Down) {
                self.down.stop()
            } else {
                self.down
            },
            ..self
        };
        if input.is_front_edge(Key::Up) {
            released.rotate_colliding_tetromino()
        } else if input.is_front_edge(Key::Down) {
            let moved = released.move_colliding_tetromino(shifted(released.tet_pos, 0, 1));
            StateView { down: moved.down.start(), ..moved }
        } else if input.is_front_edge(Key::Left) {
            let moved = released.move_colliding_tetromino(shifted(released.tet_pos, -1, 0));
            StateView { left: moved.left.start(), right: moved.right.stop(), ..moved }
        } else if input.is_front_edge(Key::Right) {
            let moved = released.move_colliding_tetromino(shifted(released.tet_pos, 1, 0));
            StateView { right: moved.right.start(), left: moved.left.stop(), ..moved }
        } else if input.is_front_edge(Key::Escape) {
            released.open_popup_screen(Screen::Pause, 0, 0)
        } else if input.is_front_edge(Key::Equals) {
            released.award_bonus()
        } else {
            released
        }
    }

    /// How the state reacts to the key edges of one tick. The active screen
    /// decides: the game screen as above; the retry screen begins a new
    /// round, with the pieces `current` and `next`, when space goes down;
    /// the pause popup closes when escape goes down.
    pub open spec fn handle_input(self, input: InputView, current: int, next: int) -> StateView {
        match self.active_screen() {
            Screen::Game => self.handle_input_game(input),
            Screen::Retry => if input.is_front_edge(Key::Space) {
                self.change_screen(Screen::Game, current, next)
            } else {
                self
            },
            Screen::Pause => if input.is_front_edge(Key::Escape) {
                self.close_popup_screen()
            } else {
                self
            },
        }
    }

    /// The notification that goes out with the key edges of one tick: a beep
    /// when the game screen is active and a direction key went down.
    pub open spec fn sound(self, input: InputView) -> Option<Sound> {
        if self.active_screen() == Screen::Game && (input.is_front_edge(Key::Up)
            || input.is_front_edge(Key::Down) || input.is_front_edge(Key::Left)
            || input.is_front_edge(Key::Right)) {
            Some(Sound::Beep)
        } else {
            None
        }
    }

    /// All timers of the round advance by one tick.
    pub open spec fn timers_ticked(self) -> StateView {
        StateView {
            left: self.left.tick(),
            right: self.right.tick(),
            down: self.down.tick(),
            fall_timer: self.fall_timer.tick(),
            animation: self.animation.tick(),
            ..self
        }
    }

    /// Each repeater that fired moves the piece by one cell: left, then
    /// right, then down.
    pub open spec fn repeats_applied(self) -> StateView {
        let after_left = if self.left.is_triggered() {
            self.move_colliding_tetromino(shifted(self.tet_pos, -1, 0))
        } else {
            self
        };
        let after_right = if after_left.right.is_triggered() {
            after_left.move_colliding_tetromino(shifted(after_left.tet_pos, 1, 0))
        } else {
            after_left
        };
        if after_right.down.is_triggered() {
            after_right.move_colliding_tetromino(shifted(after_right.tet_pos, 0, 1))
        } else {
            after_right
        }
    }

    /// The blink animation is over: the completed lines are removed and
    /// scored, the fall timer restarts at the pace of the level reached, and
    /// the turn ends with `next` as the piece drawn.
    pub open spec fn lines_cleared(self, next: int) -> StateView {
        let lines = full_lines(self.field) as int;
        let scored = (StateView { field: compacted(self.field), ..self }).update_score(
            lines,
        ).actualize_level();
        (StateView { fall_timer: scored.fall_timer.start(), ..scored }).finish_turn(next)
    }

    /// One tick of the game screen: the timers advance, fired repeaters move
    /// the piece, a finished blink animation clears the lines, and a fired
    /// fall timer restarts and lets the piece fall one step. `cleared` is
    /// the piece drawn if the line clear ends a turn, `landed` the one drawn
    /// if the fall does.
    pub open spec fn tick_game(self, cleared: int, landed: int) -> StateView {
        let moved = self.timers_ticked().repeats_applied();
        let settled = if moved.animation.is_triggered() {
            moved.lines_cleared(cleared)
        } else {
            moved
        };
        if settled.fall_timer.is_triggered() {
            (StateView { fall_timer: settled.fall_timer.start(), ..settled }).move_down(landed)
        } else {
            settled
        }
    }

    /// One tick. Only the game screen does anything in it; while the retry
    /// screen or the pause popup is active the state stays as it is.
    pub open spec fn tick(self, cleared: int, landed: int) -> StateView {
        match self.active_screen() {
            Screen::Game => self.tick_game(cleared, landed),
            Screen::Retry => self,
            Screen::Pause => self,
        }
    }
    /// Whether the field cell `(x, y)` is to be drawn: it is filled, and its
    /// row is not a completed line that the blink animation hides just now.
    pub open spec fn field_cell_shown(self, x: int, y: int) -> bool {
        cell(self.field, x, y) && (!line_filled(self.field, y) || self.animation.show)
    }

    /// Where the cell of the field in its top-left corner is drawn.
    pub open spec fn field_corner(self) -> Point {
        shifted(self.field_pos, 1, 1)
    }

    /// Where the frame of the next piece is drawn, right of the field.
    pub open spec fn preview_corner(self) -> Point {
        shifted(self.field_pos, FIELD_WIDTH + 4, FIELD_HEIGHT as int / 2)
    }

    /// Where the score is written; the level stands one row below.
    pub open spec fn score_corner(self) -> Point {
        shifted(self.field_pos, 3 + FIELD_WIDTH, 1)
    }

    /// The buffer with `frame` stamped into it, its top-left corner at `corner`.
    pub open spec fn with_frame(buf: ScreenView, frame: Grid, corner: Point) -> ScreenView {
        buf.painted(
            |x: int, y: int| cell(frame, x - corner.x, y - corner.y),
            |x: int, y: int| BLOCK,
        )
    }

    /// What the game screen draws: the border round the field, the filled
    /// cells of the field except in lines hidden by the blink animation, the
    /// falling piece unless that animation runs, the first frame of the next
    /// piece, the score, and below it the level counted from one.
    pub open spec fn draw_game(self, buf: ScreenView) -> ScreenView {
        let bordered = buf.with_rect(
            self.field_pos,
            FIELD_WIDTH + 2,
            FIELD_HEIGHT + 2,
            glyph(BORDER),
        );
        let corner = self.field_corner();
        let with_field = bordered.painted(
            |x: int, y: int| self.field_cell_shown(x - corner.x, y - corner.y),
            |x: int, y: int| BLOCK,
        );
        let with_piece = if self.animation.is_started() {
            with_field
        } else {
            StateView::with_frame(
                with_field,
                self.current_frame(),
                shifted(corner, self.tet_pos.x as int, self.tet_pos.y as int),
            )
        };
        let with_next = StateView::with_frame(
            with_piece,
            self.pieces[self.next_tet][0],
            self.preview_corner(),
        );
        with_next.with_bytes(self.score_corner(), decimal(self.score)).with_bytes(
            shifted(self.score_corner(), 0, 1),
            decimal(level_of(self.score) + 1),
        )
    }

    /// What the retry screen draws: that the game is over, the score, and
    /// how to begin again.
    pub open spec fn draw_retry(self, buf: ScreenView) -> ScreenView {
        buf.with_bytes(Point { x: 0, y: 0 }, "Game over.".spec_bytes()).with_bytes(
            Point { x: 0, y: 1 },
            "Score: ".spec_bytes() + decimal(self.score) + ".".spec_bytes(),
        ).with_bytes(Point { x: 0, y: 2 }, "Press space to try again.".spec_bytes())
    }

    /// What the pause popup draws.
    pub open spec fn draw_pause(self, buf: ScreenView) -> ScreenView {
        buf.with_bytes(Point { x: 0, y: 0 }, "Pause.".spec_bytes())
    }

    /// What the active screen draws into `buf`.
    pub open spec fn draw(self, buf: ScreenView) -> ScreenView {
        match self.active_screen() {
            Screen::Game => self.draw_game(buf),
            Screen::Retry => self.draw_retry(buf),
            Screen::Pause => self.draw_pause(buf),
        }
    }
    /// The state after `n` ticks in a row, the `k`-th of them drawing the
    /// pieces `draws(k)` where it ends a turn.
    pub open spec fn ticks(self, n: nat, draws: spec_fn(nat) -> (int, int)) -> StateView
        decreases n,
    {
        if n == 0 {
            self
        } else {
            let before = self.ticks((n - 1) as nat, draws);
            before.tick(draws((n - 1) as nat).0, draws((n - 1) as nat).1)
        }
    }
}

/// The score never falls and never passes its cap, and a compaction adds
/// at most the points that the table gives for its lines: exactly those
/// points as long as the cap is not reached.
pub proof fn lemma_score_capped(score: int, lines: int)
    requires
        0 <= score <= MAX_SCORE,
    ensures
        score <= score_after(score, lines) <= MAX_SCORE,
        score_after(score, lines) == score + score_for_lines(lines) || score_after(score, lines)
            == MAX_SCORE,
        score + score_for_lines(lines) <= MAX_SCORE ==> score_after(score, lines) == score
            + score_for_lines(lines),
{
}

/// The level is a number from zero to the last level, and it does not fall
/// when the score rises; the fall gets no slower from one level to the next.
pub proof fn lemma_level_rises(lower: int, higher: int)
    requires
        lower <= higher,
    ensures
        0 <= level_of(lower) <= level_of(higher) <= MAX_LEVEL,
        fall_period_of(level_of(lower)) >= fall_period_of(level_of(higher)) >= 8,
{
}

/// Ending a turn leaves a well-formed state, whatever the state was shaped like before.
proof fn lemma_finish_turn_wf(s: StateView, next: int)
    requires
        s.shaped(),
        0 <= next < SHAPES,
    ensures
        s.finish_turn(next).wf(),
{
}

/// A step of the fall keeps a state well-formed.
proof fn lemma_move_down_wf(s: StateView, next: int)
    requires
        s.wf(),
        0 <= next < SHAPES,
    ensures
        s.move_down(next).wf(),
{
    if s.legal() && collides(s.field, s.current_frame(), shifted(s.tet_pos, 0, 1)) {
        lemma_finish_turn_wf(s.copy_frame(), next);
    }
}

/// A move or a turn of the piece keeps the state movable, and well-formed if it was.
proof fn lemma_moves_keep_movable(s: StateView, new_pos: Point)
    requires
        s.movable(),
        new_pos.y >= s.tet_pos.y,
    ensures
        s.move_colliding_tetromino(new_pos).movable(),
        s.rotate_colliding_tetromino().movable(),
        s.wf() ==> s.move_colliding_tetromino(new_pos).wf() && s.rotate_colliding_tetromino().wf(),
{
}

/// On an empty field every frame is in a legal position at the spawn point.
pub proof fn lemma_spawn_on_empty_field(s: StateView)
    requires
        s.shaped(),
        s.field == blank(FIELD_WIDTH as int, FIELD_HEIGHT as int),
        s.tet_pos == spawn_point(),
    ensures
        s.legal(),
{
}

/// The game keeps its state well-formed. Whatever keys go down or up and
/// whatever pieces are drawn, handling the input of a tick and advancing by a
/// tick lead from a well-formed state to a well-formed state: the piece stays
/// within reach of the field and in a legal position while the round is
/// played, and the score stays within its cap. A tick never lowers the score.
pub proof fn lemma_steps_keep_wf(s: StateView, input: InputView, first: int, second: int)
    requires
        s.wf(),
        0 <= first < SHAPES,
        0 <= second < SHAPES,
    ensures
        s.handle_input(input, first, second).wf(),
        s.tick(first, second).wf(),
        s.tick(first, second).score >= s.score,
{
    lemma_handle_input_wf(s, input, first, second);
    lemma_tick_wf(s, first, second);
}

proof fn lemma_handle_input_wf(s: StateView, input: InputView, current: int, next: int)
    requires
        s.wf(),
        0 <= current < SHAPES,
        0 <= next < SHAPES,
    ensures
        s.handle_input(input, current, next).wf(),
{
    match s.active_screen() {
        Screen::Game => {
            let released = StateView {
                left: if input.is_back_edge(Key::Left) {
                    s.left.stop()
                } else {
                    s.left
                },
                right: if input.is_back_edge(Key::Right) {
                    s.right.stop()
                } else {
                    s.right
                },
                down: if input.is_back_edge(Key::Down) {
                    s.down.stop()
                } else {
                    s.down
                },
                ..s
            };
            lemma_moves_keep_movable(released, shifted(released.tet_pos, 0, 1));
            lemma_moves_keep_movable(released, shifted(released.tet_pos, -1, 0));
            lemma_moves_keep_movable(released, shifted(released.tet_pos, 1, 0));
        },
        Screen::Retry => {
            if input.is_front_edge(Key::Space) && s.screen != Screen::Game {
                let entered = (StateView { screen: Screen::Game, ..s }).enter(Screen::Game, current, next);
                lemma_spawn_on_empty_field(entered);
            }
        },
        Screen::Pause => {},
    }
}

proof fn lemma_tick_wf(s: StateView, cleared: int, landed: int)
    requires
        s.wf(),
        0 <= cleared < SHAPES,
        0 <= landed < SHAPES,
    ensures
        s.tick(cleared, landed).wf(),
{
    if s.active_screen() == Screen::Game {
        let ticked = s.timers_ticked();
        let after_left = if ticked.left.is_triggered() {
            ticked.move_colliding_tetromino(shifted(ticked.tet_pos, -1, 0))
        } else {
            ticked
        };
        lemma_moves_keep_movable(ticked, shifted(ticked.tet_pos, -1, 0));
        let after_right = if after_left.right.is_triggered() {
            after_left.move_colliding_tetromino(shifted(after_left.tet_pos, 1, 0))
        } else {
            after_left
        };
        lemma_moves_keep_movable(after_left, shifted(after_left.tet_pos, 1, 0));
        let moved = ticked.repeats_applied();
        lemma_moves_keep_movable(after_right, shifted(after_right.tet_pos, 0, 1));
        let settled = if moved.animation.is_triggered() {
            moved.lines_cleared(cleared)
        } else {
            moved
        };
        if moved.animation.is_triggered() {
            crate::field::lemma_compacted_has_no_line(moved.field);
            let lines = full_lines(moved.field) as int;
            let scored = (StateView { field: compacted(moved.field), ..moved }).update_score(
                lines,
            ).actualize_level();
            lemma_finish_turn_wf(StateView { fall_timer: scored.fall_timer.start(), ..scored }, cleared);
        }
        if settled.fall_timer.is_triggered() {
            lemma_move_down_wf(StateView { fall_timer: settled.fall_timer.start(), ..settled }, landed);
        }
    }
}

/// The step of the fall that completes a line starts the blink animation.
/// Take a round without a completed line in which the piece is in a legal
/// position but cannot go down. If merging the piece completes a line, the
/// step of the fall merges it, starts the animation and stops the fall timer,
/// and leaves the piece lying on the cells it filled, so that nothing moves
/// it until the lines are cleared. Score and pieces stay as they are.
pub proof fn lemma_landing_starts_blink(s: StateView, next: int)
    requires
        s.wf(),
        s.legal(),
        collides(s.field, s.current_frame(), shifted(s.tet_pos, 0, 1)),
        !any_line_filled(s.field),
        any_line_filled(merged(s.field, s.current_frame(), s.tet_pos)),
    ensures
        ({
            let t = s.move_down(next);
            &&& t.field == merged(s.field, s.current_frame(), s.tet_pos)
            &&& t.animation == s.animation.start()
            &&& t.animation == t.animation.start()
            &&& t.fall_timer == s.fall_timer.stop()
            &&& !t.legal()
            &&& t.score == s.score
            &&& t.tet_pos == s.tet_pos
            &&& t.curr_tet == s.curr_tet
            &&& t.next_tet == s.next_tet
            &&& t.wf()
        }),
{
    let frame = s.current_frame();
    let landed = merged(s.field, frame, s.tet_pos);
    let y = choose|y: int| line_filled(landed, y);
    assert(!line_filled(s.field, y));
    let x = choose|x: int| 0 <= x < s.field[y].len() && !s.field[y][x];
    assert(landed[y][x]);
    assert(crate::field::blocked(landed, frame, s.tet_pos, x - s.tet_pos.x, y - s.tet_pos.y));
    lemma_move_down_wf(s, 0);
}

/// What stays as it is while a landed piece waits for its lines to be cleared.
pub open spec fn held(s: StateView, t: StateView) -> bool {
    &&& t.pieces == s.pieces
    &&& t.field == s.field
    &&& t.score == s.score
    &&& t.tet_pos == s.tet_pos
    &&& t.curr_tet == s.curr_tet
    &&& t.next_tet == s.next_tet
    &&& t.curr_frame == s.curr_frame
    &&& t.screen == s.screen
    &&& t.popup == s.popup
}

/// A completed line blinks for six half-cycles and is then removed. Take a
/// round on the game screen in which a piece has just landed, so that it lies
/// on the cells it filled, and the blink animation has just been started.
/// For fewer ticks than six half-cycles last, nothing but the timers changes:
/// field, score and piece stay, and the animation has not fired. On the tick
/// that completes the sixth half-cycle the animation fires, the completed
/// lines are removed, the score rises by the points for them, and the next
/// piece appears at the spawn point with a newly drawn piece behind it.
pub proof fn lemma_blink_then_clear(s: StateView, draws: spec_fn(nat) -> (int, int), k: nat)
    requires
        s.wf(),
        s.active_screen() == Screen::Game,
        s.animation == s.animation.start(),
        !s.legal(),
        forall|i: nat| 0 <= (#[trigger] draws(i)).0 < SHAPES && 0 <= draws(i).1 < SHAPES,
        k <= BLINK_CHANGES * BLINK_PERIOD,
    ensures
        s.ticks(k, draws).wf(),
        k < BLINK_CHANGES * BLINK_PERIOD ==> held(s, s.ticks(k, draws)) && s.ticks(k, draws).animation
            == s.animation.ticks(k) && !s.ticks(k, draws).animation.is_triggered(),
        k == BLINK_CHANGES * BLINK_PERIOD ==> ({
            let t = s.ticks(k, draws);
            &&& t.animation.is_triggered()
            &&& t.field == compacted(s.field)
            &&& t.score == score_after(s.score, full_lines(s.field) as int)
            &&& t.curr_tet == s.next_tet
            &&& t.next_tet == draws((k - 1) as nat).0
            &&& t.curr_frame == 0
            &&& t.tet_pos == spawn_point()
        }),
    decreases k,
{
    lemma_blink_fires_once(s.animation, k);
    if k > 0 {
        let before = s.ticks((k - 1) as nat, draws);
        let drawn = draws((k - 1) as nat);
        lemma_blink_then_clear(s, draws, (k - 1) as nat);
        lemma_blink_fires_once(s.animation, (k - 1) as nat);
        lemma_tick_wf(before, drawn.0, drawn.1);
    }
}

/// While the pause popup is up nothing changes, for any number of ticks and
/// whatever pieces would be drawn: no timer advances and the piece does not fall.
pub proof fn lemma_pause_freezes(s: StateView, n: nat, draws: spec_fn(nat) -> (int, int))
    requires
        s.popup == Some(Screen::Pause),
    ensures
        s.ticks(n, draws) == s,
    decreases n,
{
    if n > 0 {
        lemma_pause_freezes(s, (n - 1) as nat, draws);
    }
}

/// Pausing a running game for any number of ticks and closing the popup again
/// leaves the round where it was, but for the key repeaters, which rest. The
/// fall timer, the piece and the field are as before the pause, so the fall
/// goes on at the cadence it had.
pub proof fn lemma_pause_resumes(s: StateView, n: nat, draws: spec_fn(nat) -> (int, int))
    requires
        s.popup is None,
    ensures
        s.open_popup_screen(Screen::Pause, 0, 0).ticks(n, draws).close_popup_screen()
            == s.repeaters_stopped(),
        forall|cleared: int, landed: int|
            s.open_popup_screen(Screen::Pause, 0, 0).ticks(n, draws).close_popup_screen().tick(
                cleared,
                landed,
            ) == #[trigger] s.repeaters_stopped().tick(cleared, landed),
{
    lemma_pause_freezes(s.open_popup_screen(Screen::Pause, 0, 0), n, draws);
}

} // verus!

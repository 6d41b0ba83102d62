//! The game: the state of a round and the screens that drive it.

use vstd::prelude::*;

use crate::field::Field;
use crate::geometry::Point;
use crate::grid::Grid;
use crate::input::{Input, Key};
use crate::random::{draw_below, fresh_generator};
use crate::rules::{
    fall_period_of, level_of, spawn_point, StateView, BLOCK, BONUS, BORDER, DOWN_REPEAT,
    LEVEL_STEP, MAX_LEVEL, MAX_SCORE, REPEAT_DELAY, SHAPES, SIDE_REPEAT,
};
use crate::tetromino::{Frame, Tetromino};
use crate::time::{BlinkAnimation, DelayedRepeat, TimeAware, Timer};
use crate::video::{draw_rect, draw_str, format_number, ScreenBuffer};
use crate::Number;

verus! {

/// The screens. One of them is the main screen at any time; the pause screen
/// may lie over it as a popup.
#[derive(Clone, Copy, Debug, PartialEq, Eq, Structural)]
pub enum Screen {
    Game,
    Retry,
    Pause,
}

/// What the game asks the audio side to play.
#[derive(Clone, Copy, Debug, PartialEq, Eq, Structural)]
pub enum Sound {
    Beep,
}

/// The rotation slots of the seven shapes of a catalog.
pub open spec fn catalog_slots(frames: [Vec<Frame>; 7]) -> Seq<Seq<Grid>> {
    Seq::new(SHAPES as nat, |piece: int| crate::tetromino::rotation_slots(frames[piece]@))
}

/// The state of the game: the round in progress and the screen that is up.
pub struct State<'frame> {
    tetrominos: [Tetromino<'frame>; 7],
    curr_frame: usize,
    curr_tet_index: usize,
    next_tet_index: usize,
    field: Field,
    tet_pos: Point,
    fall_timer: Timer,
    filled_lines_animation: BlinkAnimation,
    rng: fastrand::Rng,
    screen: Screen,
    popup_screen: Option<Screen>,
    left_repeater: DelayedRepeat,
    right_repeater: DelayedRepeat,
    down_repeater: DelayedRepeat,
    score: Number,
    field_pos: Point,
}

impl<'frame> View for State<'frame> {
    type V = StateView;

    closed spec fn view(&self) -> StateView {
        StateView {
            pieces: Seq::new(SHAPES as nat, |piece: int| self.tetrominos[piece]@),
            curr_frame: self.curr_frame as int,
            curr_tet: self.curr_tet_index as int,
            next_tet: self.next_tet_index as int,
            field: self.field@,
            tet_pos: self.tet_pos,
            fall_timer: self.fall_timer@,
            animation: self.filled_lines_animation@,
            screen: self.screen,
            popup: self.popup_screen,
            left: self.left_repeater@,
            right: self.right_repeater@,
            down: self.down_repeater@,
            score: self.score as int,
            field_pos: self.field_pos,
        }
    }
}

impl<'frame> State<'frame> {
    /// Creates the game with a generator of its own and begins the first round.
    pub fn new(frames: &'frame [Vec<Frame>; 7]) -> (state: State<'frame>)
        requires
            forall|piece: int| 0 <= piece < SHAPES ==> (#[trigger] frames[piece]).len() > 0,
        ensures
            state@.wf(),
            exists|current: int, next: int|
                0 <= current < SHAPES && 0 <= next < SHAPES && state@ == #[trigger] StateView::initial(
                    catalog_slots(*frames),
                    current,
                    next,
                ),
    {
        State::with_rng(frames, fresh_generator())
    }

    /// Creates the game and begins the first round with pieces drawn from `rng`.
    pub fn with_rng(frames: &'frame [Vec<Frame>; 7], rng: fastrand::Rng) -> (state: State<'frame>)
        requires
            forall|piece: int| 0 <= piece < SHAPES ==> (#[trigger] frames[piece]).len() > 0,
        ensures
            state@.wf(),
            exists|current: int, next: int|
                0 <= current < SHAPES && 0 <= next < SHAPES && state@ == #[trigger] StateView::initial(
                    catalog_slots(*frames),
                    current,
                    next,
                ),
    {
        let tetrominos = [
            Tetromino::new(frames[0].as_slice()),
            Tetromino::new(frames[1].as_slice()),
            Tetromino::new(frames[2].as_slice()),
            Tetromino::new(frames[3].as_slice()),
            Tetromino::new(frames[4].as_slice()),
            Tetromino::new(frames[5].as_slice()),
            Tetromino::new(frames[6].as_slice()),
        ];

        let field_pos = Point::new(3, 3);

        let score: Number = 0;
        let level = Self::level(score);
        let fall_timer = Timer::new(Self::fall_period(level));

        let initial_screen = Screen::Game;

        let mut state = State {
            tetrominos,
            curr_frame: 0,
            curr_tet_index: 0,
            next_tet_index: 0,
            field: Field::new(),
            field_pos,
            tet_pos: Point::new(0, 0),
            fall_timer,
            filled_lines_animation: BlinkAnimation::new(),
            rng,
            screen: initial_screen,
            popup_screen: None,
            left_repeater: DelayedRepeat::new(REPEAT_DELAY, SIDE_REPEAT),
            right_repeater: DelayedRepeat::new(REPEAT_DELAY, SIDE_REPEAT),
            down_repeater: DelayedRepeat::new(REPEAT_DELAY, DOWN_REPEAT),
            score,
        };
        proof {
            state.field.lemma_shape();
            assert forall|piece: int, rotation: int|
                0 <= piece < SHAPES && 0 <= rotation < 4 implies crate::grid::is_grid(
                #[trigger] state@.pieces[piece][rotation],
                4,
                4,
            ) by {
                state.tetrominos[piece].frames[rotation].lemma_shape();
            }
            assert(state@.pieces =~= catalog_slots(*frames));
        }

        let Ghost(drawn) = state.enter(initial_screen);
        proof {
            assert(state@ == StateView::initial(catalog_slots(*frames), drawn.0, drawn.1));
        }

        state
    }

    /// Reacts to the key edges of one tick and says what is to be played.
    /// The active screen decides what the keys do; beginning a new round
    /// draws its two pieces at random.
    pub fn handle_input(&mut self, input: &Input) -> (sound: Option<Sound>)
        requires
            old(self)@.wf(),
            input@.wf(),
        ensures
            final(self)@.wf(),
            sound == old(self)@.sound(input@),
            exists|current: int, next: int|
                0 <= current < SHAPES && 0 <= next < SHAPES && final(self)@ == #[trigger] old(
                    self,
                )@.handle_input(input@, current, next),
    {
        let current_screen = match self.popup_screen {
            Some(popup) => popup,
            None => self.screen,
        };
        match current_screen {
            Screen::Game => {
                let sound = GameScreen.handle_input(self, input);
                assert(self@ == old(self)@.handle_input(input@, 0, 0));
                sound
            },
            Screen::Retry => {
                let Ghost(drawn) = RetryScreen.handle_input(self, input);
                assert(self@ == old(self)@.handle_input(input@, drawn.0, drawn.1));
                None
            },
            Screen::Pause => {
                PauseScreen.handle_input(self, input);
                None
            },
        }
    }

    /// Advances the game by one tick. Only the game screen does anything in
    /// a tick; a turn that ends in it draws the next piece at random.
    pub fn tick(&mut self)
        requires
            old(self)@.wf(),
        ensures
            final(self)@.wf(),
            exists|cleared: int, landed: int|
                0 <= cleared < SHAPES && 0 <= landed < SHAPES && final(self)@ == #[trigger] old(
                    self,
                )@.tick(cleared, landed),
    {
        let current_screen = match self.popup_screen {
            Some(popup) => popup,
            None => self.screen,
        };
        match current_screen {
            Screen::Game => {
                let Ghost(drawn) = GameScreen.tick(self);
                assert(self@ == old(self)@.tick(drawn.0, drawn.1));
            },
            Screen::Retry => {
                RetryScreen.tick(self);
                assert(self@ == old(self)@.tick(0, 0));
            },
            Screen::Pause => {
                PauseScreen.tick(self);
            },
        }
    }

    /// Draws what the active screen shows into `buf`, clipped to the buffer.
    /// The state is only read.
    pub fn draw(&self, buf: &mut ScreenBuffer)
        requires
            self@.wf(),
            old(buf).wf(),
        ensures
            final(buf).wf(),
            final(buf)@ == self@.draw(old(buf)@),
    {
        let current_screen = match self.popup_screen {
            Some(popup) => popup,
            None => self.screen,
        };
        match current_screen {
            Screen::Game => GameScreen.draw(self, buf),
            Screen::Retry => RetryScreen.draw(self, buf),
            Screen::Pause => PauseScreen.draw(self, buf),
        }
    }

    /// Marks the filled cells of the field, leaving out the completed lines
    /// while the blink animation hides them.
    fn draw_field(&self, buf: &mut ScreenBuffer)
        requires
            self@.shaped(),
            old(buf).wf(),
        ensures
            final(buf).wf(),
            final(buf)@ == old(buf)@.painted(
                |x: int, y: int|
                    self@.field_cell_shown(x - self@.field_corner().x, y - self@.field_corner().y),
                |x: int, y: int| BLOCK,
            ),
    {
        let ghost corner = self@.field_corner();
        let mut y: Number = 0;
        proof {
            buf.lemma_shape();
        }
        assert(buf@.rows =~~= old(buf)@.painted(
            |cx: int, cy: int| self@.field_cell_shown(cx - corner.x, cy - corner.y) && cy - corner.y < y,
            |cx: int, cy: int| BLOCK,
        ).rows);
        while y < Field::height()
            invariant
                0 <= y <= 18,
                self@.shaped(),
                corner == self@.field_corner(),
                buf.wf(),
                buf@ == old(buf)@.painted(
                    |cx: int, cy: int|
                        self@.field_cell_shown(cx - corner.x, cy - corner.y) && cy - corner.y < y,
                    |cx: int, cy: int| BLOCK,
                ),
            decreases 18 - y,
        {
            let pos_y = self.field_pos.y + y + 1;
            if !self.field.is_line_filled(y) || self.filled_lines_animation.is_show() {
                let mut x: Number = 0;
                assert(buf@.rows =~~= old(buf)@.painted(
                    |cx: int, cy: int|
                        self@.field_cell_shown(cx - corner.x, cy - corner.y) && (cy - corner.y < y
                            || (cy - corner.y == y && cx - corner.x < x)),
                    |cx: int, cy: int| BLOCK,
                ).rows);
                while x < Field::width()
                    invariant
                        0 <= y < 18,
                        0 <= x <= 10,
                        pos_y == self.field_pos.y + y + 1,
                        self@.shaped(),
                        corner == self@.field_corner(),
                        !crate::field::line_filled(self@.field, y as int) || self@.animation.show,
                        buf.wf(),
                        buf@ == old(buf)@.painted(
                            |cx: int, cy: int|
                                self@.field_cell_shown(cx - corner.x, cy - corner.y) && (cy - corner.y
                                    < y || (cy - corner.y == y && cx - corner.x < x)),
                            |cx: int, cy: int| BLOCK,
                        ),
                    decreases 10 - x,
                {
                    let pos_x = self.field_pos.x + x + 1;
                    if self.field.is_filled(Point::new(x, y)) {
                        buf.set_byte(Point::new(pos_x, pos_y), BLOCK);
                    }
                    assert(buf@.rows =~~= old(buf)@.painted(
                        |cx: int, cy: int|
                            self@.field_cell_shown(cx - corner.x, cy - corner.y) && (cy - corner.y
                                < y || (cy - corner.y == y && cx - corner.x < x + 1)),
                        |cx: int, cy: int| BLOCK,
                    ).rows);
                    x += 1;
                }
            }
            assert(buf@.rows =~~= old(buf)@.painted(
                |cx: int, cy: int|
                    self@.field_cell_shown(cx - corner.x, cy - corner.y) && cy - corner.y < y + 1,
                |cx: int, cy: int| BLOCK,
            ).rows);
            y += 1;
        }
        assert(buf@.rows =~~= old(buf)@.painted(
            |cx: int, cy: int| self@.field_cell_shown(cx - corner.x, cy - corner.y),
            |cx: int, cy: int| BLOCK,
        ).rows);
    }

    /// The score of the round.
    pub fn score(&self) -> (score: Number)
        ensures
            score == self@.score,
    {
        self.score
    }

    /// The main screen.
    pub fn screen(&self) -> (screen: Screen)
        ensures
            screen == self@.screen,
    {
        self.screen
    }

    /// The popup that lies over the main screen, if any.
    pub fn popup_screen(&self) -> (popup: Option<Screen>)
        ensures
            popup == self@.popup,
    {
        self.popup_screen
    }

    /// The playfield with the pieces that have landed.
    pub fn field(&self) -> (field: &Field)
        ensures
            field@ == self@.field,
    {
        &self.field
    }

    /// Where the falling piece is anchored, in field coordinates.
    pub fn tet_pos(&self) -> (p: Point)
        ensures
            p == self@.tet_pos,
    {
        self.tet_pos
    }

    /// The shape of the falling piece, as its number in the catalog.
    pub fn curr_tet_index(&self) -> (piece: usize)
        ensures
            piece == self@.curr_tet,
    {
        self.curr_tet_index
    }

    /// The shape of the piece that falls next.
    pub fn next_tet_index(&self) -> (piece: usize)
        ensures
            piece == self@.next_tet,
    {
        self.next_tet_index
    }

    /// The rotation slot of the falling piece.
    pub fn curr_frame(&self) -> (rotation: usize)
        ensures
            rotation == self@.curr_frame,
    {
        self.curr_frame
    }

    /// The animation that blinks completed lines before they are removed.
    pub fn filled_lines_animation(&self) -> (animation: &BlinkAnimation)
        ensures
            animation@ == self@.animation,
    {
        &self.filled_lines_animation
    }

    /// Where a new piece appears.
    fn spawn_pos() -> (p: Point)
        ensures
            p == spawn_point(),
    {
        Point::new((Field::width() - Frame::width()) / 2, -2)
    }

    /// The frame of the current piece in rotation slot `rotation`.
    fn frame(&self, rotation: usize) -> (frame: &'frame Frame)
        requires
            self@.shaped(),
            rotation < 4,
        ensures
            frame@ == self@.frame(rotation as int),
    {
        self.tetrominos[self.curr_tet_index].frames[rotation]
    }

    fn current_frame(&self) -> (frame: &'frame Frame)
        requires
            self@.shaped(),
        ensures
            frame@ == self@.current_frame(),
    {
        self.frame(self.curr_frame)
    }

    fn copy_frame(&mut self)
        requires
            old(self)@.shaped(),
        ensures
            final(self)@ == old(self)@.copy_frame(),
            final(self)@.shaped(),
    {
        let pos = self.tet_pos;
        let curr_frame = self.current_frame();
        self.field.copy_frame(curr_frame, pos);
        proof {
            self.field.lemma_shape();
        }
    }

    fn is_collide(&self, frame: &Frame, p: Point) -> (b: bool)
        ensures
            b == crate::field::collides(self@.field, frame@, p),
    {
        self.field.is_collide(frame, p)
    }

    fn clean_filled_lines(&mut self) -> (lines: Number)
        requires
            old(self)@.shaped(),
        ensures
            final(self)@ == (StateView {
                field: crate::field::compacted(old(self)@.field),
                ..old(self)@
            }),
            lines == crate::field::full_lines(old(self)@.field),
            final(self)@.shaped(),
    {
        let lines = self.field.clean_filled_lines();
        proof {
            self.field.lemma_shape();
        }
        lines
    }

    /// The level reached with `score`.
    fn level(score: Number) -> (level: Number)
        ensures
            level == level_of(score as int),
    {
        if score < 0 {
            0
        } else if score / LEVEL_STEP < MAX_LEVEL {
            score / LEVEL_STEP
        } else {
            MAX_LEVEL
        }
    }

    /// Ticks between two steps of the fall at `level`.
    fn fall_period(level: Number) -> (period: Number)
        ensures
            period == fall_period_of(level as int),
    {
        if level <= 0 {
            120
        } else if level == 1 {
            60
        } else if level == 2 {
            50
        } else if level == 3 {
            40
        } else if level == 4 {
            34
        } else if level == 5 {
            28
        } else if level == 6 {
            24
        } else if level == 7 {
            16
        } else if level == 8 {
            10
        } else {
            8
        }
    }

    /// Adds the points for `lines` lines removed in one compaction.
    pub fn update_score(&mut self, lines: Number)
        requires
            old(self)@.shaped(),
        ensures
            final(self)@ == old(self)@.update_score(lines as int),
            final(self)@.shaped(),
            old(self)@.wf() ==> final(self)@.wf(),
    {
        let score: Number = if lines <= 0 {
            0
        } else if lines == 1 {
            100
        } else if lines == 2 {
            250
        } else if lines == 3 {
            500
        } else {
            1000
        };

        self.score = if self.score + score < MAX_SCORE {
            self.score + score
        } else {
            MAX_SCORE
        };
    }

    /// Makes the fall timer anew for the level that the score has reached.
    pub fn actualize_level(&mut self)
        requires
            old(self)@.shaped(),
        ensures
            final(self)@ == old(self)@.actualize_level(),
            final(self)@.shaped(),
            old(self)@.wf() ==> final(self)@.wf(),
    {
        let level = Self::level(self.score);
        self.fall_timer = Timer::new(Self::fall_period(level));
    }

    /// Takes the popup away.
    pub fn close_popup_screen(&mut self)
        requires
            old(self)@.shaped(),
        ensures
            final(self)@ == old(self)@.close_popup_screen(),
            final(self)@.shaped(),
            old(self)@.wf() ==> final(self)@.wf(),
    {
        self.popup_screen = None;
    }
    /// Tries to move the piece to `new_pos`.
    fn move_colliding_tetromino(&mut self, new_pos: Point)
        requires
            old(self)@.movable(),
            new_pos.y >= old(self)@.tet_pos.y,
        ensures
            final(self)@ == old(self)@.move_colliding_tetromino(new_pos),
            final(self)@.movable(),
            old(self)@.wf() ==> final(self)@.wf(),
    {
        if self.filled_lines_animation.is_started() {
            return ;
        }
        if self.is_collide(self.current_frame(), self.tet_pos) || !self.is_collide(
            self.current_frame(),
            new_pos,
        ) {
            self.tet_pos = new_pos;
        }
    }

    /// The rotation slot after the current one.
    fn next_frame(&self) -> (rotation: usize)
        requires
            self@.shaped(),
        ensures
            rotation == self@.next_frame(),
            rotation < 4,
    {
        (self.curr_frame + 1) % 4
    }

    /// Tries to turn the piece to its next rotation slot.
    fn rotate_colliding_tetromino(&mut self)
        requires
            old(self)@.movable(),
        ensures
            final(self)@ == old(self)@.rotate_colliding_tetromino(),
            final(self)@.movable(),
            old(self)@.wf() ==> final(self)@.wf(),
    {
        if self.filled_lines_animation.is_started() {
            return ;
        }
        let new_frame_index = self.next_frame();
        let new_frame = self.frame(new_frame_index);
        if self.is_collide(self.current_frame(), self.tet_pos) || !self.is_collide(
            new_frame,
            self.tet_pos,
        ) {
            self.curr_frame = new_frame_index;
        }
    }

    /// Rests the three key repeaters.
    fn stop_repeaters(&mut self)
        ensures
            final(self)@ == old(self)@.repeaters_stopped(),
    {
        self.left_repeater.stop();
        self.right_repeater.stop();
        self.down_repeater.stop();
    }

    /// Begins a round with the pieces `current` and `next`: score zero, the
    /// fall timer running at the pace of level zero, the field empty, the
    /// piece at the spawn point.
    pub fn begin_round(&mut self, current: usize, next: usize)
        requires
            old(self)@.shaped(),
            current < SHAPES,
            next < SHAPES,
        ensures
            final(self)@ == old(self)@.enter(Screen::Game, current as int, next as int),
            final(self)@.wf(),
    {
        self.score = 0;
        self.fall_timer = Timer::new(Self::fall_period(Self::level(self.score)));
        self.fall_timer.start();
        self.curr_tet_index = current;
        self.next_tet_index = next;
        self.curr_frame = 0;
        self.field.clear();
        self.tet_pos = Self::spawn_pos();
        proof {
            self.field.lemma_shape();
            crate::rules::lemma_spawn_on_empty_field(self@);
        }
    }

    /// Enters `screen`; the game screen draws the two pieces of the new round.
    fn enter(&mut self, screen: Screen) -> (drawn: Ghost<(int, int)>)
        requires
            old(self)@.shaped(),
        ensures
            final(self)@ == old(self)@.enter(screen, drawn@.0, drawn@.1),
            0 <= drawn@.0 < SHAPES,
            0 <= drawn@.1 < SHAPES,
            final(self)@.shaped(),
            screen == Screen::Game ==> final(self)@.wf(),
            screen != Screen::Game && old(self)@.wf() ==> final(self)@.wf(),
    {
        match screen {
            Screen::Game => GameScreen.enter(self),
            Screen::Retry => RetryScreen.enter(self),
            Screen::Pause => PauseScreen.enter(self),
        }
    }

    /// Makes `new_screen` the main screen and enters it, unless it is up already.
    fn change_screen(&mut self, new_screen: Screen) -> (drawn: Ghost<(int, int)>)
        requires
            old(self)@.shaped(),
        ensures
            final(self)@ == old(self)@.change_screen(new_screen, drawn@.0, drawn@.1),
            0 <= drawn@.0 < SHAPES,
            0 <= drawn@.1 < SHAPES,
            final(self)@.shaped(),
            new_screen != Screen::Game ==> final(self)@.screen == new_screen,
            old(self)@.wf() || new_screen != Screen::Game ==> final(self)@.wf(),
    {
        if self.screen == new_screen {
            return Ghost((0, 0));
        }
        self.screen = new_screen;

        self.enter(new_screen)
    }

    /// Lays `popup_screen` over the main screen and enters it, unless a popup is up.
    fn open_popup_screen(&mut self, popup_screen: Screen)
        requires
            old(self)@.wf(),
            popup_screen == Screen::Pause,
        ensures
            final(self)@ == old(self)@.open_popup_screen(popup_screen, 0, 0),
            final(self)@.wf(),
    {
        if self.popup_screen.is_none() {
            self.popup_screen = Some(popup_screen);
            let _ = self.enter(popup_screen);
        }
    }

    /// Ends the turn with `next` as the piece after the one that now appears.
    pub fn finish_turn_with(&mut self, next: usize)
        requires
            old(self)@.shaped(),
            next < SHAPES,
        ensures
            final(self)@ == old(self)@.finish_turn(next as int),
            final(self)@.wf(),
    {
        self.stop_repeaters();
        self.curr_tet_index = self.next_tet_index;
        self.next_tet_index = next;
        self.curr_frame = 0;
        self.tet_pos = Self::spawn_pos();

        if self.is_collide(self.current_frame(), self.tet_pos) {
            let _ = self.change_screen(Screen::Retry);
        }
    }

    /// Ends the turn and draws the piece after the one that now appears.
    fn finish_turn(&mut self) -> (drawn: Ghost<int>)
        requires
            old(self)@.shaped(),
        ensures
            final(self)@ == old(self)@.finish_turn(drawn@),
            0 <= drawn@ < SHAPES,
            final(self)@.wf(),
    {
        let next = draw_below(&self.rng, SHAPES);
        self.finish_turn_with(next);
        Ghost(next as int)
    }

    /// Lets the piece fall one step.
    fn move_down(&mut self) -> (drawn: Ghost<int>)
        requires
            old(self)@.wf(),
        ensures
            final(self)@ == old(self)@.move_down(drawn@),
            0 <= drawn@ < SHAPES,
            final(self)@.wf(),
    {
        if self.is_collide(self.current_frame(), self.tet_pos) {
            return Ghost(0);
        }
        let new_pos = self.tet_pos.add_y(1);

        if !self.is_collide(self.current_frame(), new_pos) {
            self.tet_pos = new_pos;
            Ghost(0)
        } else {
            self.copy_frame();

            if self.field.is_any_line_filled() {
                self.filled_lines_animation.start();
                self.fall_timer.stop();
                Ghost(0)
            } else {
                self.finish_turn()
            }
        }
    }
}

/// Marks the filled cells of `frame`, its top-left corner drawn at `corner`.
fn draw_frame(buf: &mut ScreenBuffer, frame: &Frame, corner: Point)
    requires
        old(buf).wf(),
        -100 <= corner.x <= 100,
        -100 <= corner.y <= 100,
    ensures
        final(buf).wf(),
        final(buf)@ == StateView::with_frame(old(buf)@, frame@, corner),
{
    proof {
        frame.lemma_shape();
        buf.lemma_shape();
    }
    let mut y: Number = 0;
    assert(buf@.rows =~~= old(buf)@.painted(
        |cx: int, cy: int| crate::grid::cell(frame@, cx - corner.x, cy - corner.y) && cy - corner.y < y,
        |cx: int, cy: int| BLOCK,
    ).rows);
    while y < Frame::height()
        invariant
            0 <= y <= 4,
            -100 <= corner.x <= 100,
            -100 <= corner.y <= 100,
            crate::grid::is_grid(frame@, 4, 4),
            buf.wf(),
            buf@ == old(buf)@.painted(
                |cx: int, cy: int|
                    crate::grid::cell(frame@, cx - corner.x, cy - corner.y) && cy - corner.y < y,
                |cx: int, cy: int| BLOCK,
            ),
        decreases 4 - y,
    {
        let mut x: Number = 0;
        assert(buf@.rows =~~= old(buf)@.painted(
            |cx: int, cy: int|
                crate::grid::cell(frame@, cx - corner.x, cy - corner.y) && (cy - corner.y < y || (cy
                    - corner.y == y && cx - corner.x < x)),
            |cx: int, cy: int| BLOCK,
        ).rows);
        while x < Frame::width()
            invariant
                0 <= y < 4,
                0 <= x <= 4,
                -100 <= corner.x <= 100,
                -100 <= corner.y <= 100,
                crate::grid::is_grid(frame@, 4, 4),
                buf.wf(),
                buf@ == old(buf)@.painted(
                    |cx: int, cy: int|
                        crate::grid::cell(frame@, cx - corner.x, cy - corner.y) && (cy - corner.y < y
                            || (cy - corner.y == y && cx - corner.x < x)),
                    |cx: int, cy: int| BLOCK,
                ),
            decreases 4 - x,
        {
            let pos = corner + Point::new(x, y);
            if frame.is_filled(Point::new(x, y)) {
                buf.set_byte(pos, BLOCK);
            }
            assert(buf@.rows =~~= old(buf)@.painted(
                |cx: int, cy: int|
                    crate::grid::cell(frame@, cx - corner.x, cy - corner.y) && (cy - corner.y < y || (
                    cy - corner.y == y && cx - corner.x < x + 1)),
                |cx: int, cy: int| BLOCK,
            ).rows);
            x += 1;
        }
        assert(buf@.rows =~~= old(buf)@.painted(
            |cx: int, cy: int|
                crate::grid::cell(frame@, cx - corner.x, cy - corner.y) && cy - corner.y < y + 1,
            |cx: int, cy: int| BLOCK,
        ).rows);
        y += 1;
    }
    assert(buf@.rows =~~= StateView::with_frame(old(buf)@, frame@, corner).rows);
}

/// Appends `bytes` to `out`.
fn append(out: &mut Vec<u8>, bytes: &[u8])
    ensures
        final(out)@ == old(out)@ + bytes@,
{
    let mut i: usize = 0;
    while i < bytes.len()
        invariant
            i <= bytes@.len(),
            out@ == old(out)@ + bytes@.subrange(0, i as int),
        decreases bytes@.len() - i,
    {
        out.push(bytes[i]);
        i += 1;
    }
}

/// The screen on which the round is played.
struct GameScreen;

/// The screen that comes up when the game is over.
struct RetryScreen;

/// The popup that freezes the round.
struct PauseScreen;

impl GameScreen {
    /// Begins a round with two pieces drawn at random.
    fn enter(&self, state: &mut State) -> (drawn: Ghost<(int, int)>)
        requires
            old(state)@.shaped(),
        ensures
            final(state)@ == old(state)@.enter(Screen::Game, drawn@.0, drawn@.1),
            0 <= drawn@.0 < SHAPES,
            0 <= drawn@.1 < SHAPES,
            final(state)@.wf(),
    {
        let current = draw_below(&state.rng, SHAPES);
        let next = draw_below(&state.rng, SHAPES);
        state.begin_round(current, next);
        Ghost((current as int, next as int))
    }

    /// Draws the round: border, field, falling piece, next piece, score and level.
    fn draw(&self, state: &State, buf: &mut ScreenBuffer)
        requires
            state@.wf(),
            old(buf).wf(),
        ensures
            final(buf).wf(),
            final(buf)@ == state@.draw_game(old(buf)@),
    {
        draw_rect(buf, state.field_pos, Field::width() + 2, Field::height() + 2, BORDER);

        state.draw_field(buf);

        if !state.filled_lines_animation.is_started() {
            let corner = state.tet_pos + state.field_pos + Point::new(1, 1);
            draw_frame(buf, state.current_frame(), corner);
        }
        let corner = state.field_pos.add_x(Field::width() + 4).add_y(Field::height() / 2);
        draw_frame(buf, state.tetrominos[state.next_tet_index].frames[0], corner);

        let score = format_number(state.score);
        buf.set_bytes(state.field_pos.add_x(3 + Field::width()).add_y(1), score.as_slice());
        let level = format_number(State::level(state.score) + 1);
        buf.set_bytes(state.field_pos.add_x(3 + Field::width()).add_y(2), level.as_slice());
    }

    /// Reacts to the key edges of one tick while the round is played.
    fn handle_input(&self, state: &mut State, input: &Input) -> (sound: Option<Sound>)
        requires
            old(state)@.wf(),
            old(state)@.active_screen() == Screen::Game,
            input@.wf(),
        ensures
            final(state)@ == old(state)@.handle_input_game(input@),
            final(state)@.wf(),
            sound == old(state)@.sound(input@),
    {
        if input.is_back_edge(Key::Left) {
            state.left_repeater.stop();
        }
        if input.is_back_edge(Key::Right) {
            state.right_repeater.stop();
        }
        if input.is_back_edge(Key::Down) {
            state.down_repeater.stop();
        }
        if input.is_front_edge(Key::Up) {
            state.rotate_colliding_tetromino();
            Some(Sound::Beep)
        } else if input.is_front_edge(Key::Down) {
            let new_pos = state.tet_pos.add_y(1);
            state.move_colliding_tetromino(new_pos);
            state.down_repeater.start();
            Some(Sound::Beep)
        } else if input.is_front_edge(Key::Left) {
            let new_pos = state.tet_pos.sub_x(1);
            state.move_colliding_tetromino(new_pos);
            state.left_repeater.start();
            state.right_repeater.stop();
            Some(Sound::Beep)
        } else if input.is_front_edge(Key::Right) {
            let new_pos = state.tet_pos.add_x(1);
            state.move_colliding_tetromino(new_pos);
            state.right_repeater.start();
            state.left_repeater.stop();
            Some(Sound::Beep)
        } else if input.is_front_edge(Key::Escape) {
            state.open_popup_screen(Screen::Pause);
            None
        } else if input.is_front_edge(Key::Equals) {
            state.score = if state.score + BONUS < MAX_SCORE {
                state.score + BONUS
            } else {
                MAX_SCORE
            };
            state.fall_timer = Timer::new(State::fall_period(State::level(state.score)));
            state.fall_timer.start();
            None
        } else {
            None
        }
    }

    /// Advances the round by one tick.
    fn tick(&self, state: &mut State) -> (drawn: Ghost<(int, int)>)
        requires
            old(state)@.wf(),
            old(state)@.active_screen() == Screen::Game,
        ensures
            final(state)@ == old(state)@.tick_game(drawn@.0, drawn@.1),
            0 <= drawn@.0 < SHAPES,
            0 <= drawn@.1 < SHAPES,
            final(state)@.wf(),
    {
        state.left_repeater.tick();
        state.right_repeater.tick();
        state.down_repeater.tick();
        state.fall_timer.tick();
        state.filled_lines_animation.tick();
        assert(state@ == old(state)@.timers_ticked());

        if state.left_repeater.is_triggered() {
            let new_pos = state.tet_pos.sub_x(1);
            state.move_colliding_tetromino(new_pos);
        }
        if state.right_repeater.is_triggered() {
            let new_pos = state.tet_pos.add_x(1);
            state.move_colliding_tetromino(new_pos);
        }
        if state.down_repeater.is_triggered() {
            let new_pos = state.tet_pos.add_y(1);
            state.move_colliding_tetromino(new_pos);
        }
        let ghost mut cleared: int = 0;
        if state.filled_lines_animation.is_triggered() {
            let filled_lines = state.clean_filled_lines();
            state.update_score(filled_lines);
            state.actualize_level();
            state.fall_timer.start();
            let Ghost(next) = state.finish_turn();
            proof {
                cleared = next;
            }
        }
        let ghost mut landed: int = 0;
        if state.fall_timer.is_triggered() {
            state.fall_timer.start();
            let Ghost(next) = state.move_down();
            proof {
                landed = next;
            }
        }
        Ghost((cleared, landed))
    }
}

impl RetryScreen {
    fn enter(&self, state: &mut State) -> (drawn: Ghost<(int, int)>)
        ensures
            final(state)@ == old(state)@,
            drawn@ == (0int, 0int),
    {
        Ghost((0, 0))
    }

    /// Draws the message that the game is over, with the score.
    fn draw(&self, state: &State, buf: &mut ScreenBuffer)
        requires
            old(buf).wf(),
        ensures
            final(buf).wf(),
            final(buf)@ == state@.draw_retry(old(buf)@),
    {
        draw_str(buf, Point::new(0, 0), "Game over.");
        let mut line: Vec<u8> = Vec::new();
        append(&mut line, "Score: ".as_bytes());
        let score = format_number(state.score);
        append(&mut line, score.as_slice());
        append(&mut line, ".".as_bytes());
        buf.set_bytes(Point::new(0, 1), line.as_slice());
        draw_str(buf, Point::new(0, 2), "Press space to try again.");
    }

    /// Begins a new round when space goes down.
    fn handle_input(&self, state: &mut State, input: &Input) -> (drawn: Ghost<(int, int)>)
        requires
            old(state)@.wf(),
            input@.wf(),
        ensures
            final(state)@ == if input@.is_front_edge(Key::Space) {
                old(state)@.change_screen(Screen::Game, drawn@.0, drawn@.1)
            } else {
                old(state)@
            },
            0 <= drawn@.0 < SHAPES,
            0 <= drawn@.1 < SHAPES,
            final(state)@.wf(),
    {
        if input.is_front_edge(Key::Space) {
            state.change_screen(Screen::Game)
        } else {
            Ghost((0, 0))
        }
    }

    fn tick(&self, state: &mut State)
        ensures
            final(state)@ == old(state)@,
    {
    }
}

impl PauseScreen {
    /// Rests the key repeaters, so that no repeat is pending when the round resumes.
    fn enter(&self, state: &mut State) -> (drawn: Ghost<(int, int)>)
        ensures
            final(state)@ == old(state)@.repeaters_stopped(),
            drawn@ == (0int, 0int),
    {
        state.stop_repeaters();
        Ghost((0, 0))
    }

    /// Draws the word that says the game is paused.
    fn draw(&self, state: &State, buf: &mut ScreenBuffer)
        requires
            old(buf).wf(),
        ensures
            final(buf).wf(),
            final(buf)@ == state@.draw_pause(old(buf)@),
    {
        draw_str(buf, Point::new(0, 0), "Pause.");
    }

    /// Closes the popup when escape goes down.
    fn handle_input(&self, state: &mut State, input: &Input)
        requires
            old(state)@.wf(),
            input@.wf(),
        ensures
            final(state)@ == if input@.is_front_edge(Key::Escape) {
                old(state)@.close_popup_screen()
            } else {
                old(state)@
            },
            final(state)@.wf(),
    {
        if input.is_front_edge(Key::Escape) {
            state.close_popup_screen();
        }
    }

    /// Nothing moves while the game is paused.
    fn tick(&self, state: &mut State)
        ensures
            final(state)@ == old(state)@,
    {
    }
}

} // verus!

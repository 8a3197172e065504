use vstd::prelude::*;
use crate::constants::{BLOCKS_PER_LINE, FALL_TIME, FIRST_LINE_HEIGHT, GRID_STEP};
use crate::ecs::components::{GameEntityType, Point2, Position, Turn};
use crate::ecs::resources::{Motion, Timing};
use crate::types::WorldVector2;

verus! {

/// Moves the controlled piece as the player and the fall timer ask.
pub struct MovementSystem;

/// Chooses the placements of the controlled piece that are to be tested for
/// contact, and reads the outcome.
pub struct CollisionsSystem;

/// Takes the control from a piece that has come to rest, splits it into
/// blocks, and clears the lines that are complete.
pub struct ControlSystem;

/// What the movement system reads and writes of an entity.
#[derive(Debug, Clone, Copy, PartialEq, Eq, Structural)]
pub struct MovingEntity {
    pub position: Position,
    /// The player controls the entity.
    pub controllable: bool,
    /// The entity never falls.
    pub is_static: bool,
    /// A contact was found for the entity in this update.
    pub in_collision: bool,
}

/// A placement of the controlled piece to be tested for contact before it
/// is taken: a displacement in world units and a turn.
#[derive(Debug, Clone, Copy, PartialEq, Eq, Structural)]
pub struct Candidate {
    pub dx: i32,
    pub dy: i32,
    pub turn: Turn,
}

/// A block that a piece leaves behind.
#[derive(Debug, Clone, Copy, PartialEq, Eq, Structural)]
pub struct Block {
    pub position: Position,
    pub kind: GameEntityType,
}

/// The turn that a motion asks for: a turn to the left wins over one to the
/// right.
pub open spec fn turn_of(motion: Motion) -> Turn {
    if motion.rotation_left {
        Turn::Left
    } else if motion.rotation_right {
        Turn::Right
    } else {
        Turn::Still
    }
}

/// How far a motion takes an entity along the horizontal axis, in steps.
pub open spec fn steps_right(motion: Motion) -> int {
    (if motion.right {
        1int
    } else {
        0int
    }) - (if motion.left {
        1int
    } else {
        0int
    })
}

/// How far a motion takes an entity upwards, in steps.
pub open spec fn steps_up(motion: Motion) -> int {
    (if motion.up {
        1int
    } else {
        0int
    }) - (if motion.down {
        1int
    } else {
        0int
    })
}

impl MovingEntity {
    /// Whether the entity falls when the fall timer has run out: a
    /// controlled entity does, unless it is static or in contact.
    pub open spec fn falls(self) -> bool {
        self.controllable && !self.is_static && !self.in_collision
    }

    /// Whether the entity follows the player: a controlled entity does,
    /// unless it is in contact.
    pub open spec fn follows(self) -> bool {
        self.controllable && !self.in_collision
    }

    /// The place of the entity after one update, as `(x, y)`.
    pub open spec fn place_after(self, motion: Motion, fall_due: bool) -> (int, int) {
        let fallen = if fall_due && self.falls() {
            self.position.point.y - GRID_STEP
        } else {
            self.position.point.y as int
        };
        if self.follows() {
            (
                self.position.point.x + steps_right(motion) * GRID_STEP,
                fallen + steps_up(motion) * GRID_STEP,
            )
        } else {
            (self.position.point.x as int, fallen)
        }
    }

    /// The entity after one update.
    pub open spec fn after(self, motion: Motion, fall_due: bool) -> MovingEntity {
        MovingEntity {
            position: Position {
                point: Point2 {
                    x: self.place_after(motion, fall_due).0 as i32,
                    y: self.place_after(motion, fall_due).1 as i32,
                },
            },
            ..self
        }
    }

    /// Whether the entity can be moved by one update without leaving the
    /// range of its coordinates.
    pub open spec fn has_room(self, motion: Motion, fall_due: bool) -> bool {
        &&& i32::MIN <= self.place_after(motion, fall_due).0 <= i32::MAX
        &&& i32::MIN <= self.place_after(motion, fall_due).1 <= i32::MAX
    }
}

impl MovementSystem {
    /// Moves one entity by one update: it falls by a step where the fall
    /// timer has run out and it falls at all, and then takes a step in
    /// each direction that the motion asks for, where it follows the
    /// player.
    pub fn move_entity(motion: &Motion, fall_due: bool, entity: &mut MovingEntity)
        requires
            old(entity).has_room(*motion, fall_due),
        ensures
            *final(entity) == old(entity).after(*motion, fall_due),
            (final(entity).position.point.x as int, final(entity).position.point.y as int) == old(
                entity,
            ).place_after(*motion, fall_due),
    {
        let mut x: i64 = entity.position.point.x as i64;
        let mut y: i64 = entity.position.point.y as i64;
        let step: i64 = GRID_STEP as i64;
        if fall_due && entity.controllable && !entity.is_static && !entity.in_collision {
            y = y - step;
        }
        if entity.controllable && !entity.in_collision {
            if motion.up {
                y = y + step;
            }
            if motion.down {
                y = y - step;
            }
            if motion.left {
                x = x - step;
            }
            if motion.right {
                x = x + step;
            }
        }
        entity.position = Position { point: Point2 { x: x as i32, y: y as i32 } };
    }

    /// The turn that the motion asks of the entities that follow the
    /// player.
    pub fn turn(motion: &Motion) -> (turn: Turn)
        ensures
            turn == turn_of(*motion),
    {
        if motion.rotation_left {
            Turn::Left
        } else if motion.rotation_right {
            Turn::Right
        } else {
            Turn::Still
        }
    }

    /// One update of the movement: `elapsed` updates pass on the fall
    /// timer, every entity is moved, the motion is forgotten, and a fall
    /// timer that has run out starts anew. Returns the turn that the
    /// entities that follow the player take.
    pub fn run(
        motion: &mut Motion,
        timing: &mut Timing,
        elapsed: i32,
        entities: &mut Vec<MovingEntity>,
    ) -> (turn: Turn)
        requires
            old(timing).fall_timeout - elapsed >= i32::MIN,
            old(timing).fall_timeout - elapsed <= i32::MAX,
            forall|i: int|
                0 <= i < old(entities).len() ==> (#[trigger] old(entities)[i]).has_room(
                    *old(motion),
                    old(timing).fall_timeout - elapsed < 0,
                ),
        ensures
            turn == turn_of(*old(motion)),
            *final(motion) == Motion::idle(),
            final(timing).fall_timeout == (if old(timing).fall_timeout - elapsed < 0 {
                FALL_TIME as int
            } else {
                old(timing).fall_timeout - elapsed
            }),
            final(entities).len() == old(entities).len(),
            forall|i: int|
                0 <= i < old(entities).len() ==> #[trigger] final(entities)[i] == old(
                    entities,
                )[i].after(*old(motion), old(timing).fall_timeout - elapsed < 0),
    {
        timing.fall_timeout = timing.fall_timeout - elapsed;
        let fall_due = timing.fall_timeout < 0;
        let mut i: usize = 0;
        while i < entities.len()
            invariant
                i <= entities.len(),
                entities.len() == old(entities).len(),
                *motion == *old(motion),
                forall|j: int| i <= j < entities.len() ==> entities[j] == old(entities)[j],
                forall|j: int|
                    0 <= j < old(entities).len() ==> (#[trigger] old(entities)[j]).has_room(
                        *motion,
                        fall_due,
                    ),
                forall|j: int|
                    0 <= j < i ==> #[trigger] entities[j] == old(entities)[j].after(
                        *motion,
                        fall_due,
                    ),
            decreases entities.len() - i,
        {
            let mut entity = entities[i];
            MovementSystem::move_entity(motion, fall_due, &mut entity);
            entities.set(i, entity);
            i += 1;
        }
        let turn = MovementSystem::turn(motion);
        motion.reset();
        if fall_due {
            timing.fall_timeout = FALL_TIME as i32;
        }
        turn
    }
}

/// The placement with the given displacement and turn.
pub open spec fn candidate(dx: int, dy: int, turn: Turn) -> Candidate {
    Candidate { dx: dx as i32, dy: dy as i32, turn }
}

/// The seven placements that an update can ask to be tested, in the order
/// in which they are tested: the fall, a step up, down, left and right, a
/// turn to the right and a turn to the left.
pub open spec fn slot_candidate(slot: int) -> Candidate {
    if slot == 0 {
        candidate(0, -GRID_STEP, Turn::Still)
    } else if slot == 1 {
        candidate(0, GRID_STEP as int, Turn::Still)
    } else if slot == 2 {
        candidate(0, -GRID_STEP, Turn::Still)
    } else if slot == 3 {
        candidate(-GRID_STEP, 0, Turn::Still)
    } else if slot == 4 {
        candidate(GRID_STEP as int, 0, Turn::Still)
    } else if slot == 5 {
        candidate(0, 0, Turn::Right)
    } else {
        candidate(0, 0, Turn::Left)
    }
}

/// Whether the placement of a slot is asked for: the fall where the fall
/// timer runs out in this update, each other one where the motion asks for
/// it.
pub open spec fn slot_asked(motion: Motion, fall_due: bool, slot: int) -> bool {
    if slot == 0 {
        fall_due
    } else if slot == 1 {
        motion.up
    } else if slot == 2 {
        motion.down
    } else if slot == 3 {
        motion.left
    } else if slot == 4 {
        motion.right
    } else if slot == 5 {
        motion.rotation_right
    } else {
        motion.rotation_left
    }
}

/// The placements that are asked for among the first `slots` slots, in
/// their order.
pub open spec fn candidates_among(motion: Motion, fall_due: bool, slots: int) -> Seq<Candidate>
    decreases slots,
{
    if slots <= 0 {
        Seq::empty()
    } else if slot_asked(motion, fall_due, slots - 1) {
        candidates_among(motion, fall_due, slots - 1).push(slot_candidate(slots - 1))
    } else {
        candidates_among(motion, fall_due, slots - 1)
    }
}

/// The placements to test in an update, in the order in which they are
/// tested.
pub open spec fn candidates_of(motion: Motion, fall_due: bool) -> Seq<Candidate> {
    candidates_among(motion, fall_due, 7)
}

impl CollisionsSystem {
    /// The placements of the controlled piece that are to be tested for
    /// contact in this update, in the order of testing. A test looks at a
    /// placement and takes none: the piece stays where it is.
    pub fn candidates(motion: &Motion, timing: &Timing, elapsed: i32) -> (candidates: Vec<Candidate>)
        ensures
            candidates@ == candidates_of(*motion, timing.fall_timeout - elapsed < 0),
    {
        let mut candidates: Vec<Candidate> = Vec::new();
        let fall_due = (timing.fall_timeout as i64) - (elapsed as i64) < 0;
        assert(candidates@ == candidates_among(*motion, fall_due, 0));
        if fall_due {
            candidates.push(Candidate { dx: 0, dy: -GRID_STEP, turn: Turn::Still });
        }
        assert(candidates@ == candidates_among(*motion, fall_due, 1));
        if motion.up {
            candidates.push(Candidate { dx: 0, dy: GRID_STEP, turn: Turn::Still });
        }
        assert(candidates@ == candidates_among(*motion, fall_due, 2));
        if motion.down {
            candidates.push(Candidate { dx: 0, dy: -GRID_STEP, turn: Turn::Still });
        }
        assert(candidates@ == candidates_among(*motion, fall_due, 3));
        if motion.left {
            candidates.push(Candidate { dx: -GRID_STEP, dy: 0, turn: Turn::Still });
        }
        assert(candidates@ == candidates_among(*motion, fall_due, 4));
        if motion.right {
            candidates.push(Candidate { dx: GRID_STEP, dy: 0, turn: Turn::Still });
        }
        assert(candidates@ == candidates_among(*motion, fall_due, 5));
        if motion.rotation_right {
            candidates.push(Candidate { dx: 0, dy: 0, turn: Turn::Right });
        }
        assert(candidates@ == candidates_among(*motion, fall_due, 6));
        if motion.rotation_left {
            candidates.push(Candidate { dx: 0, dy: 0, turn: Turn::Left });
        }
        assert(candidates@ == candidates_among(*motion, fall_due, 7));
        candidates
    }

    /// The first placement with a contact, given for each tested placement
    /// whether a contact was found: its index, or `None` where none was
    /// found.
    pub fn first_contact(contacts: &Vec<bool>) -> (first: Option<usize>)
        ensures
            first matches Some(i) ==> i < contacts.len() && contacts[i as int] && forall|j: int|
                0 <= j < i ==> !contacts[j],
            first is None ==> forall|j: int| 0 <= j < contacts.len() ==> !contacts[j],
    {
        let mut i: usize = 0;
        while i < contacts.len()
            invariant
                i <= contacts.len(),
                forall|j: int| 0 <= j < i ==> !contacts[j],
            decreases contacts.len() - i,
        {
            if contacts[i] {
                return Some(i);
            }
            i += 1;
        }
        None
    }

    /// The contact that the controlled piece is left with, given for each
    /// other entity, in their order, and for each placement that was tested
    /// against it, whether a contact was found. A later entity with a
    /// contact takes the place of an earlier one, and of the placements
    /// against one entity the first with a contact counts. Returns the
    /// index of the entity and that of the placement, or `None` where no
    /// contact was found at all.
    pub fn select_contact(found: &Vec<Vec<bool>>) -> (chosen: Option<(usize, usize)>)
        ensures
            chosen matches Some((entity, placement)) ==> {
                &&& entity < found.len()
                &&& placement < found[entity as int].len()
                &&& found[entity as int][placement as int]
                &&& forall|earlier: int| 0 <= earlier < placement ==> !found[entity as int][earlier]
                &&& forall|later: int, any: int|
                    entity < later < found.len() && 0 <= any < found[later].len()
                        ==> !#[trigger] found[later][any]
            },
            chosen is None ==> forall|entity: int, any: int|
                0 <= entity < found.len() && 0 <= any < found[entity].len()
                    ==> !#[trigger] found[entity][any],
    {
        let mut entity: usize = found.len();
        while entity > 0
            invariant
                entity <= found.len(),
                forall|later: int, any: int|
                    entity <= later < found.len() && 0 <= any < found[later].len()
                        ==> !#[trigger] found[later][any],
            decreases entity,
        {
            entity -= 1;
            match CollisionsSystem::first_contact(&found[entity]) {
                Some(placement) => {
                    return Some((entity, placement));
                },
                None => {},
            }
        }
        None
    }

    /// Whether a contact takes the control from the piece: it does when the
    /// player asked for nothing, so that the contact comes from the fall
    /// alone.
    pub fn removes_control(motion: &Motion) -> (removes: bool)
        ensures
            removes == !motion.is_any(),
    {
        !motion.any()
    }
}

/// The number of the line that lies at the given height: line 0 lies at
/// the first line height, and each further line one step higher. Heights
/// below line 0 give 0, and no number passes 255.
pub open spec fn line_number_at(height: int) -> int {
    if height <= FIRST_LINE_HEIGHT {
        0
    } else if (height - FIRST_LINE_HEIGHT) / (GRID_STEP as int) > 255 {
        255
    } else {
        (height - FIRST_LINE_HEIGHT) / (GRID_STEP as int)
    }
}

/// The greatest of the line numbers, or 0 where there is none.
pub open spec fn top_line_of(lines: Seq<u8>) -> u8
    decreases lines.len(),
{
    if lines.len() == 0 {
        0
    } else if lines.last() > top_line_of(lines.drop_last()) {
        lines.last()
    } else {
        top_line_of(lines.drop_last())
    }
}

/// A line of the playfield as the collision world shows it: its height in
/// world units, and the number of blocks that touch it.
#[derive(Debug, Clone, Copy, PartialEq, Eq, Structural)]
pub struct LineContacts {
    pub height: i32,
    pub blocks_in_contact: usize,
}

/// The numbers of the complete lines among the first `count` lines, in the
/// order of the lines: a line is complete when ten blocks touch it.
pub open spec fn completed_among(lines: Seq<LineContacts>, count: int) -> Seq<u8>
    decreases count,
{
    if count <= 0 {
        Seq::empty()
    } else if lines[count - 1].blocks_in_contact == BLOCKS_PER_LINE {
        completed_among(lines, count - 1).push(line_number_at(lines[count - 1].height as int) as u8)
    } else {
        completed_among(lines, count - 1)
    }
}

/// Where a block stands after lines were cleared: a block above the
/// topmost cleared line has sunk by one step for each cleared line, and
/// every other block stands where it stood.
pub open spec fn height_after_clear(height: int, top_line: int, cleared: int) -> int {
    if above_line(height, top_line) {
        height - cleared * GRID_STEP
    } else {
        height
    }
}

/// Whether a block at the given height lies above the given line.
pub open spec fn above_line(height: int, line: int) -> bool {
    height > FIRST_LINE_HEIGHT + line * GRID_STEP
}

impl ControlSystem {
    /// The greatest of the line numbers, or 0 where there is none.
    pub fn calculate_top_completed_line(completed_lines: &mut Vec<u8>) -> (top_line: u8)
        ensures
            final(completed_lines)@ == old(completed_lines)@,
            forall|i: int| 0 <= i < old(completed_lines).len() ==> old(completed_lines)[i] <= top_line,
            old(completed_lines).len() == 0 ==> top_line == 0,
            top_line != 0 ==> exists|i: int|
                0 <= i < old(completed_lines).len() && old(completed_lines)[i] == top_line,
            top_line == top_line_of(old(completed_lines)@),
    {
        let mut top_line: u8 = 0;
        let mut i: usize = 0;
        while i < completed_lines.len()
            invariant
                i <= completed_lines.len(),
                completed_lines@ == old(completed_lines)@,
                forall|j: int| 0 <= j < i ==> completed_lines[j] <= top_line,
                top_line != 0 ==> exists|j: int| 0 <= j < i && completed_lines[j] == top_line,
                top_line == top_line_of(completed_lines@.take(i as int)),
            decreases completed_lines.len() - i,
        {
            assert(completed_lines@.take(i + 1).drop_last() =~= completed_lines@.take(i as int));
            if completed_lines[i] > top_line {
                top_line = completed_lines[i];
            }
            i += 1;
        }
        assert(completed_lines@.take(i as int) =~= completed_lines@);
        top_line
    }

    /// The number of the line that lies at the given height.
    pub fn calculate_line_number(height: i32) -> (line_number: u8)
        ensures
            line_number == line_number_at(height as int),
    {
        if height <= FIRST_LINE_HEIGHT {
            0
        } else {
            let steps: i64 = (height as i64 - FIRST_LINE_HEIGHT as i64) / (GRID_STEP as i64);
            if steps > 255 {
                255
            } else {
                steps as u8
            }
        }
    }

    /// Whether a line that this many blocks touch is complete.
    pub fn is_complete_line(blocks_in_contact: usize) -> (complete: bool)
        ensures
            complete == (blocks_in_contact == BLOCKS_PER_LINE),
    {
        blocks_in_contact == BLOCKS_PER_LINE
    }

    /// Notes the line as complete where ten blocks touch it.
    pub fn update_completed_lines(
        completed_lines: &mut Vec<u8>,
        line_number: u8,
        blocks_in_contact: usize,
    )
        ensures
            final(completed_lines)@ == (if blocks_in_contact == BLOCKS_PER_LINE {
                old(completed_lines)@.push(line_number)
            } else {
                old(completed_lines)@
            }),
    {
        if ControlSystem::is_complete_line(blocks_in_contact) {
            completed_lines.push(line_number);
        }
    }

    /// The blocks that a piece leaves behind: one for each of its cells, a
    /// step of the grid for each unit of the displacement away from the
    /// position of the piece, and of the block kind of the piece.
    pub fn split_controlled_tetrimino_into_blocks(
        vectors: &Vec<WorldVector2>,
        position: &Position,
        kind: &GameEntityType,
    ) -> (blocks: Vec<Block>)
        requires
            kind.is_piece(),
            forall|i: int|
                0 <= i < vectors.len() ==> {
                    &&& i32::MIN <= position.point.x + (#[trigger] vectors[i]).x * GRID_STEP
                        <= i32::MAX
                    &&& i32::MIN <= position.point.y + vectors[i].y * GRID_STEP <= i32::MAX
                },
        ensures
            blocks.len() == vectors.len(),
            forall|i: int|
                0 <= i < blocks.len() ==> {
                    &&& (#[trigger] blocks[i]).kind == kind.block_type()->0
                    &&& blocks[i].position.point.x == position.point.x + vectors[i].x * GRID_STEP
                    &&& blocks[i].position.point.y == position.point.y + vectors[i].y * GRID_STEP
                },
    {
        let mut blocks: Vec<Block> = Vec::new();
        let block_kind = match kind.get_block_type() {
            Some(block_kind) => block_kind,
            None => vstd::pervasive::unreached(),
        };
        let mut i: usize = 0;
        while i < vectors.len()
            invariant
                i <= vectors.len(),
                blocks.len() == i,
                block_kind == kind.block_type()->0,
                forall|j: int|
                    0 <= j < vectors.len() ==> {
                        &&& i32::MIN <= position.point.x + (#[trigger] vectors[j]).x * GRID_STEP
                            <= i32::MAX
                        &&& i32::MIN <= position.point.y + vectors[j].y * GRID_STEP <= i32::MAX
                    },
                forall|j: int|
                    0 <= j < i ==> {
                        &&& (#[trigger] blocks[j]).kind == block_kind
                        &&& blocks[j].position.point.x == position.point.x + vectors[j].x
                            * GRID_STEP
                        &&& blocks[j].position.point.y == position.point.y + vectors[j].y
                            * GRID_STEP
                    },
            decreases vectors.len() - i,
        {
            let vector = vectors[i];
            let x: i64 = position.point.x as i64 + vector.x as i64 * GRID_STEP as i64;
            let y: i64 = position.point.y as i64 + vector.y as i64 * GRID_STEP as i64;
            let point = Point2 { x: x as i32, y: y as i32 };
            blocks.push(Block { position: Position { point }, kind: block_kind });
            i += 1;
        }
        blocks
    }

    /// Lets a block sink after lines were cleared: a block above the
    /// topmost cleared line sinks by one step for each cleared line, and
    /// every other block stays.
    pub fn shift_block(position: &mut Position, top_line: u8, cleared: usize)
        requires
            i32::MIN <= height_after_clear(
                old(position).point.y as int,
                top_line as int,
                cleared as int,
            ),
        ensures
            final(position).point.x == old(position).point.x,
            final(position).point.y == height_after_clear(
                old(position).point.y as int,
                top_line as int,
                cleared as int,
            ),
    {
        if position.point.y > FIRST_LINE_HEIGHT + top_line as i32 * GRID_STEP {
            let sunk: i128 = position.point.y as i128 - cleared as i128 * GRID_STEP as i128;
            position.point.y = sunk as i32;
        }
    }

    /// The numbers of the lines that are complete, in the order of the
    /// lines.
    pub fn completed_lines(lines: &Vec<LineContacts>) -> (completed: Vec<u8>)
        ensures
            completed@ == completed_among(lines@, lines.len() as int),
    {
        let mut completed: Vec<u8> = Vec::new();
        let mut i: usize = 0;
        while i < lines.len()
            invariant
                i <= lines.len(),
                completed@ == completed_among(lines@, i as int),
            decreases lines.len() - i,
        {
            let line_number = ControlSystem::calculate_line_number(lines[i].height);
            ControlSystem::update_completed_lines(
                &mut completed,
                line_number,
                lines[i].blocks_in_contact,
            );
            i += 1;
        }
        completed
    }

    /// Clears the complete lines once the controlled piece has come to
    /// rest: finds the lines that are complete, and lets every block above
    /// the topmost of them sink by one step for each of them. Returns the
    /// numbers of the complete lines.
    pub fn run(lines: &Vec<LineContacts>, blocks: &mut Vec<Position>) -> (completed: Vec<u8>)
        requires
            forall|i: int|
                0 <= i < old(blocks).len() ==> i32::MIN <= height_after_clear(
                    (#[trigger] old(blocks)[i]).point.y as int,
                    top_line_of(completed_among(lines@, lines.len() as int)) as int,
                    completed_among(lines@, lines.len() as int).len() as int,
                ),
        ensures
            completed@ == completed_among(lines@, lines.len() as int),
            final(blocks).len() == old(blocks).len(),
            forall|i: int|
                0 <= i < old(blocks).len() ==> {
                    &&& (#[trigger] final(blocks)[i]).point.x == old(blocks)[i].point.x
                    &&& final(blocks)[i].point.y == height_after_clear(
                        old(blocks)[i].point.y as int,
                        top_line_of(completed@) as int,
                        completed.len() as int,
                    )
                },
    {
        let mut completed = ControlSystem::completed_lines(lines);
        let top_line = ControlSystem::calculate_top_completed_line(&mut completed);
        let cleared = completed.len();
        let mut i: usize = 0;
        while i < blocks.len()
            invariant
                i <= blocks.len(),
                blocks.len() == old(blocks).len(),
                forall|j: int| i <= j < blocks.len() ==> blocks[j] == old(blocks)[j],
                forall|j: int|
                    0 <= j < old(blocks).len() ==> i32::MIN <= height_after_clear(
                        (#[trigger] old(blocks)[j]).point.y as int,
                        top_line as int,
                        cleared as int,
                    ),
                forall|j: int|
                    0 <= j < i ==> {
                        &&& (#[trigger] blocks[j]).point.x == old(blocks)[j].point.x
                        &&& blocks[j].point.y == height_after_clear(
                            old(blocks)[j].point.y as int,
                            top_line as int,
                            cleared as int,
                        )
                    },
            decreases blocks.len() - i,
        {
            let mut block = blocks[i];
            ControlSystem::shift_block(&mut block, top_line, cleared);
            blocks.set(i, block);
            i += 1;
        }
        completed
    }
}

} // verus!

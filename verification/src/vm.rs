use vstd::prelude::*;

use crate::env::AREA_TILE_NOTHING;
use crate::env::AREA_TILE_TREASURE;
use crate::env::grid_view;
use vstd::pervasive::VecAdditionalExecFns;

verus! {

/// One movement symbol of the step trace, emitted by a Move instruction.
#[derive(Clone, Copy, PartialEq, Eq, Debug, Structural)]
pub enum Direction {
    Up,
    Right,
    Down,
    Left,
}

/// Successor of an 8-bit memory cell, wrapping 255 back around to 0.
pub fn cyclic_increment_u8(n: u8) -> (r: u8)
    ensures
        r == inc_spec(n),
        r as int == (n as int + 1) % 256,
{
    if n == u8::MAX {
        0
    } else {
        n + 1
    }
}

/// Predecessor of an 8-bit memory cell, wrapping 0 back around to 255.
pub fn cyclic_decrement_u8(n: u8) -> (r: u8)
    ensures
        r == dec_spec(n),
        r as int == (n as int + 255) % 256,
{
    if n == 0 {
        u8::MAX
    } else {
        n - 1
    }
}

/// The wrapping successor, as a mathematical map on cell values.
pub open spec fn inc_spec(n: u8) -> u8 {
    (((n as int) + 1) % 256) as u8
}

/// The wrapping predecessor, as a mathematical map on cell values.
pub open spec fn dec_spec(n: u8) -> u8 {
    (((n as int) + 255) % 256) as u8
}

/// `k` applications of the wrapping successor to `n`.
pub open spec fn iter_inc(n: u8, k: nat) -> u8
    decreases k,
{
    if k == 0 {
        n
    } else {
        inc_spec(iter_inc(n, (k - 1) as nat))
    }
}

/// The wrapping successor walks the whole 8-bit cycle: after 256 steps it
/// is back at its start, and no value repeats along the way, so all 256
/// cell values are visited exactly once. The predecessor undoes one step.
pub proof fn lemma_increment_cycles(n: u8)
    ensures
        iter_inc(n, 256) == n,
        forall|k1: nat, k2: nat|
            k1 < k2 < 256 ==> iter_inc(n, k1) != iter_inc(n, k2),
        forall|k: nat| k < 256 ==> #[trigger] dec_spec(inc_spec(iter_inc(n, k))) == iter_inc(n, k),
{
    assert forall|k: nat| k <= 256 implies #[trigger] iter_inc(n, k) as int == (n as int + k) % 256 by {
        lemma_iter_inc_value(n, k);
    }
    assert forall|k1: nat, k2: nat| k1 < k2 < 256 implies iter_inc(n, k1) != iter_inc(n, k2) by {
        lemma_iter_inc_value(n, k1);
        lemma_iter_inc_value(n, k2);
    }
    assert forall|k: nat| k < 256 implies #[trigger] dec_spec(inc_spec(iter_inc(n, k))) == iter_inc(
        n,
        k,
    ) by {
        let v = iter_inc(n, k);
        assert(dec_spec(inc_spec(v)) == v);
    }
}

proof fn lemma_iter_inc_value(n: u8, k: nat)
    ensures
        iter_inc(n, k) as int == (n as int + k) % 256,
    decreases k,
{
    if k > 0 {
        lemma_iter_inc_value(n, (k - 1) as nat);
    }
}

/// A snapshot of the virtual machine mid-run: the self-modifiable 64-cell
/// instruction memory, the instruction pointer, the player position, the
/// working copy of the grid (treasures are cleared from it on pickup), the
/// counters, the emitted trace, and whether the player has left the grid.
pub struct VmState {
    pub mem: Seq<u8>,
    pub ip: int,
    pub x: int,
    pub y: int,
    pub area: Seq<Seq<u8>>,
    pub iterations: int,
    pub found: int,
    pub trace: Seq<Direction>,
    pub halted: bool,
}

/// Number of grid rows a state's area holds.
pub open spec fn rows_of(s: VmState) -> int {
    s.area.len() as int
}

/// Number of grid columns a state's area holds (the grid is rectangular).
pub open spec fn cols_of(s: VmState) -> int {
    s.area[0].len() as int
}

/// Whether the player stands on the grid.
pub open spec fn in_area(s: VmState) -> bool {
    0 <= s.x < cols_of(s) && 0 <= s.y < rows_of(s)
}

/// The machine's starting state: fresh memory holding the genome, the
/// instruction pointer at 0, the player at the given coordinates, nothing
/// yet found, run, or emitted.
pub open spec fn vm_init(instructions: Seq<u8>, area: Seq<Seq<u8>>, x: int, y: int) -> VmState {
    VmState {
        mem: instructions,
        ip: 0,
        x: x,
        y: y,
        area: area,
        iterations: 0,
        found: 0,
        trace: Seq::empty(),
        halted: false,
    }
}

/// Whether the run is over: the player left the grid, the safety bound of
/// 500 steps is spent, the instruction pointer fell off the 64-cell
/// program, or every treasure of the goal is found.
pub open spec fn vm_done(s: VmState, goal: int) -> bool {
    s.halted || s.iterations >= 500 || s.ip >= 64 || s.found >= goal
}

/// The direction a Move operand asks for.
pub open spec fn dir_of(d: int) -> Direction {
    if d == 0 {
        Direction::Up
    } else if d == 1 {
        Direction::Right
    } else if d == 2 {
        Direction::Down
    } else {
        Direction::Left
    }
}

/// One step of the machine. The top two bits of the fetched byte select
/// the operation, the bottom six bits are its operand: increment or
/// decrement a memory cell (wrapping), jump to an absolute target, or move
/// the player one tile. A move emits its symbol, and then either halts the
/// run (off the grid, the step still counted) or picks up a treasure tile,
/// clearing it. Every step costs one iteration; every operation but a jump
/// advances the instruction pointer by one.
pub open spec fn vm_step(s: VmState) -> VmState {
    let instr = s.mem[s.ip];
    let op = instr & 0xC0;
    let data = (instr & 0x3F) as int;
    if op == 0x00 {
        VmState {
            mem: s.mem.update(data, inc_spec(s.mem[data])),
            ip: s.ip + 1,
            iterations: s.iterations + 1,
            ..s
        }
    } else if op == 0x40 {
        VmState {
            mem: s.mem.update(data, dec_spec(s.mem[data])),
            ip: s.ip + 1,
            iterations: s.iterations + 1,
            ..s
        }
    } else if op == 0x80 {
        VmState { ip: data, iterations: s.iterations + 1, ..s }
    } else {
        let d = data % 4;
        let nx = if d == 1 {
            s.x + 1
        } else if d == 3 {
            s.x - 1
        } else {
            s.x
        };
        let ny = if d == 0 {
            s.y - 1
        } else if d == 2 {
            s.y + 1
        } else {
            s.y
        };
        let moved = VmState {
            x: nx,
            y: ny,
            ip: s.ip + 1,
            iterations: s.iterations + 1,
            trace: s.trace.push(dir_of(d)),
            ..s
        };
        if !in_area(moved) {
            VmState { halted: true, ..moved }
        } else if s.area[ny][nx] == AREA_TILE_TREASURE {
            VmState {
                area: s.area.update(ny, s.area[ny].update(nx, AREA_TILE_NOTHING as u8)),
                found: s.found + 1,
                ..moved
            }
        } else {
            moved
        }
    }
}

/// Runs the machine until it is done, for at most `fuel` steps.
pub open spec fn vm_run(s: VmState, goal: int, fuel: nat) -> VmState
    decreases fuel,
{
    if vm_done(s, goal) || fuel == 0 {
        s
    } else {
        vm_run(vm_step(s), goal, (fuel - 1) as nat)
    }
}

/// A run consumes at most one iteration per unit of fuel, so a full run
/// from a fresh state never consumes more than 500 iterations.
pub proof fn lemma_vm_run_iterations(s: VmState, goal: int, fuel: nat)
    ensures
        vm_run(s, goal, fuel).iterations <= s.iterations + fuel,
    decreases fuel,
{
    if !(vm_done(s, goal) || fuel == 0) {
        lemma_vm_run_iterations(vm_step(s), goal, (fuel - 1) as nat);
    }
}

/// The machine fetches an instruction only in a state that is not done,
/// and there the instruction pointer lies inside the 64-cell program: no
/// run ever reads past instruction index 63.
pub proof fn lemma_fetch_in_bounds(s: VmState, goal: int)
    requires
        !vm_done(s, goal),
        0 <= s.ip,
    ensures
        0 <= s.ip < 64,
{
}

/// Executes a genome against a copy of the game area, the player starting
/// at the given coordinates, until the run is done. Appends the emitted
/// movement symbols to `steps` and returns how many iterations the run
/// consumed and how many treasures it found: exactly what the mathematical
/// machine `vm_run` yields on the same inputs.
#[verifier::loop_isolation(false)]
pub fn run_virtual_machine(
    instructions: &Vec<u8>,
    original_game_area: &Vec<Vec<u8>>,
    steps: &mut Vec<Direction>,
    player_x: isize,
    player_y: isize,
    treasures: u32,
) -> (result: (u32, u32))
    requires
        instructions@.len() == 64,
        original_game_area@.len() >= 1,
        original_game_area@.len() <= isize::MAX,
        original_game_area@[0]@.len() <= isize::MAX,
        forall|i: int|
            0 <= i < original_game_area@.len() ==> #[trigger] original_game_area@[i]@.len()
                == original_game_area@[0]@.len(),
        0 <= player_y < original_game_area@.len(),
        0 <= player_x < original_game_area@[0]@.len(),
    ensures
        ({
            let end = vm_run(
                vm_init(
                    instructions@,
                    grid_view(original_game_area@),
                    player_x as int,
                    player_y as int,
                ),
                treasures as int,
                500,
            );
            &&& result.0 as int == end.iterations
            &&& result.1 as int == end.found
            &&& final(steps)@ == old(steps)@ + end.trace
        }),
        result.0 <= 500,
{
    let ghost grid = grid_view(original_game_area@);
    let ghost init = vm_init(instructions@, grid, player_x as int, player_y as int);
    let ghost goal = treasures as int;

    let rows: usize = original_game_area.len();
    let columns: usize = original_game_area[0].len();

    let mut game_area: Vec<Vec<u8>> = clone_grid(original_game_area);
    let mut machine_memory: Vec<u8> = copy_bytes(instructions);
    let mut trace: Vec<Direction> = Vec::new();
    let mut curr_instr_index: usize = 0;
    let mut iterations: u32 = 0;
    let mut found_treasures: u32 = 0;
    let mut px: isize = player_x;
    let mut py: isize = player_y;
    let mut halted: bool = false;

    let ghost mut cur = init;

    while !halted && iterations < 500 && curr_instr_index < 64 && found_treasures < treasures
        invariant
            cur.mem == machine_memory@,
            cur.ip == curr_instr_index as int,
            cur.x == px as int,
            cur.y == py as int,
            cur.area == grid_view(game_area@),
            cur.iterations == iterations as int,
            cur.found == found_treasures as int,
            cur.trace == trace@,
            cur.halted == halted,
            iterations <= 500,
            curr_instr_index <= 64,
            machine_memory@.len() == 64,
            game_area@.len() == rows,
            forall|i: int|
                0 <= i < game_area@.len() ==> #[trigger] game_area@[i]@.len() == columns,
            !halted ==> 0 <= px as int && (px as int) < columns as int && 0 <= py as int && (
            py as int) < rows as int,
            vm_run(init, goal, 500) == vm_run(cur, goal, (500 - iterations as int) as nat),
        decreases 500 - iterations,
    {
        let ghost prev = cur;
        let instruction: u8 = machine_memory[curr_instr_index];
        let operation: u8 = instruction & 0xC0;
        let data: usize = (instruction & 0x3F) as usize;
        assert(instruction & 0x3F < 64) by (bit_vector);
        let mut jump: bool = false;
        match operation {
            0 => {
                let cell = machine_memory[data];
                machine_memory.set(data, cyclic_increment_u8(cell));
            },
            64 => {
                let cell = machine_memory[data];
                machine_memory.set(data, cyclic_decrement_u8(cell));
            },
            128 => {
                curr_instr_index = data;
                jump = true;
            },
            _ => {
                match data % 4 {
                    0 => {
                        trace.push(Direction::Up);
                        py = py - 1;
                    },
                    1 => {
                        trace.push(Direction::Right);
                        px = px + 1;
                    },
                    2 => {
                        trace.push(Direction::Down);
                        py = py + 1;
                    },
                    _ => {
                        trace.push(Direction::Left);
                        px = px - 1;
                    },
                }
                if !(px >= 0 && (px as usize) < columns && py >= 0 && (py as usize) < rows) {
                    halted = true;
                } else {
                    let row: &Vec<u8> = &game_area[py as usize];
                    if row[px as usize] == AREA_TILE_TREASURE {
                        let mut new_row: Vec<u8> = copy_bytes(row);
                        new_row.set(px as usize, AREA_TILE_NOTHING);
                        game_area.set(py as usize, new_row);
                        found_treasures = found_treasures + 1;
                        proof {
                            assert(grid_view(game_area@) =~= prev.area.update(
                                py as int,
                                prev.area[py as int].update(px as int, AREA_TILE_NOTHING as u8),
                            ));
                        }
                    }
                }
            },
        }
        iterations = iterations + 1;
        if !jump {
            curr_instr_index = curr_instr_index + 1;
        }
        proof {
            cur = vm_step(prev);
        }
    }
    proof {
        assert(vm_done(cur, goal));
        assert(vm_run(cur, goal, (500 - iterations as int) as nat) == cur);
    }
    steps.append(&mut trace);
    (iterations, found_treasures)
}

/// Copies a byte vector element by element.
fn copy_bytes(src: &Vec<u8>) -> (r: Vec<u8>)
    ensures
        r@ == src@,
{
    let mut r: Vec<u8> = Vec::new();
    let mut i: usize = 0;
    assert(r@ =~= src@.take(0));
    while i < src.len()
        invariant
            i <= src@.len(),
            r@ == src@.take(i as int),
        decreases src@.len() - i,
    {
        r.push(src[i]);
        assert(r@ =~= src@.take(i as int + 1));
        i = i + 1;
    }
    assert(r@ =~= src@);
    r
}

/// Copies a grid of tiles row by row.
fn clone_grid(src: &Vec<Vec<u8>>) -> (r: Vec<Vec<u8>>)
    ensures
        grid_view(r@) == grid_view(src@),
        r@.len() == src@.len(),
        forall|i: int| 0 <= i < src@.len() ==> #[trigger] r@[i]@ == src@[i]@,
{
    let mut r: Vec<Vec<u8>> = Vec::new();
    let mut i: usize = 0;
    while i < src.len()
        invariant
            i <= src@.len(),
            r@.len() == i,
            forall|j: int| 0 <= j < i ==> #[trigger] r@[j]@ == src@[j]@,
        decreases src@.len() - i,
    {
        let row: Vec<u8> = copy_bytes(&src[i]);
        r.push(row);
        i = i + 1;
    }
    proof {
        assert(grid_view(r@) =~= grid_view(src@));
    }
    r
}

} // verus!

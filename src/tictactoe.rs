//! The reference environment: two-player tic-tac-toe.
//!
//! Cells hold 0 (empty), 1 (X) or 2 (O); X moves first. A move on an occupied
//! cell, off the board, or after the game ended leaves the state unchanged.
//! The observation is 29 flags (X cells, O cells, legal moves, side to move),
//! each encoded as a little-endian `f32` of value 0.0 or 1.0.
use crate::typed::{
    ActionSpace, Capabilities, CapsView, DecodeError, EncodeError, Encoding, EngineId, Game,
    SpaceView,
};
use rand_chacha::ChaCha20Rng;
use vstd::array::{spec_array_fill_for_copy_type, spec_array_update};
use vstd::prelude::*;

verus! {

/// Bit pattern of the `f32` value 1.0.
pub const REWARD_WIN: u32 = 0x3F80_0000;

/// Bit pattern of the `f32` value -1.0.
pub const REWARD_LOSS: u32 = 0xBF80_0000;

/// Bit pattern of the `f32` value 0.0.
pub const REWARD_NONE: u32 = 0;

/// Encoded length of a state: nine cells, the side to move, the winner.
pub const STATE_LEN: usize = 11;

/// Encoded length of an observation: 29 values of four bytes.
pub const OBS_LEN: usize = 116;

/// A tic-tac-toe position.
#[derive(Debug, Clone, Copy, PartialEq, Eq)]
pub struct State {
    /// 0 = empty, 1 = X, 2 = O.
    pub board: [u8; 9],
    /// 1 = X, 2 = O.
    pub current_player: u8,
    /// 0 = ongoing, 1 = X won, 2 = O won, 3 = draw.
    pub winner: u8,
}

/// Owner of the line `a`, `b`, `c` if all three cells hold the same mark.
pub open spec fn line_owner(b: Seq<u8>, a: int, c1: int, c2: int) -> u8 {
    if b[a] != 0 && b[a] == b[c1] && b[c1] == b[c2] {
        b[a]
    } else {
        0
    }
}

pub open spec fn board_full(b: Seq<u8>) -> bool {
    forall|i: int| 0 <= i < 9 ==> b[i] != 0
}

/// The winner of a board, looking at rows, then columns, then diagonals:
/// the first complete line's mark, else 3 on a full board, else 0.
pub open spec fn winner_of(b: Seq<u8>) -> u8 {
    if line_owner(b, 0, 1, 2) != 0 {
        line_owner(b, 0, 1, 2)
    } else if line_owner(b, 3, 4, 5) != 0 {
        line_owner(b, 3, 4, 5)
    } else if line_owner(b, 6, 7, 8) != 0 {
        line_owner(b, 6, 7, 8)
    } else if line_owner(b, 0, 3, 6) != 0 {
        line_owner(b, 0, 3, 6)
    } else if line_owner(b, 1, 4, 7) != 0 {
        line_owner(b, 1, 4, 7)
    } else if line_owner(b, 2, 5, 8) != 0 {
        line_owner(b, 2, 5, 8)
    } else if line_owner(b, 0, 4, 8) != 0 {
        line_owner(b, 0, 4, 8)
    } else if line_owner(b, 2, 4, 6) != 0 {
        line_owner(b, 2, 4, 6)
    } else if board_full(b) {
        3
    } else {
        0
    }
}

/// Whether a move at `p` changes the state.
pub open spec fn move_applies(s: State, p: u8) -> bool {
    s.winner == 0 && p < 9 && s.board[p as int] == 0
}

/// The state after a move at `p`.
pub open spec fn after_move(s: State, p: u8) -> State {
    if !move_applies(s, p) {
        s
    } else {
        let board = spec_array_update(s.board, p as int, s.current_player);
        let winner = winner_of(board@);
        State {
            board,
            current_player: if winner != 0 {
                s.current_player
            } else if s.current_player == 1 {
                2
            } else {
                1
            },
            winner,
        }
    }
}

/// Empty cells among the first `n`, in increasing order.
pub open spec fn empty_cells_upto(b: Seq<u8>, n: nat) -> Seq<u8>
    decreases n,
{
    if n == 0 {
        Seq::empty()
    } else {
        let rest = empty_cells_upto(b, (n - 1) as nat);
        if b[n - 1] == 0 {
            rest.push((n - 1) as u8)
        } else {
            rest
        }
    }
}

/// Legal moves of a state: the empty cells while the game is on.
pub open spec fn legal_moves_of(s: State) -> Seq<u8> {
    if s.winner != 0 {
        Seq::empty()
    } else {
        empty_cells_upto(s.board@, 9)
    }
}

/// Bit `i` is set when cell `i` is a legal move.
pub open spec fn legal_mask_of(s: State) -> u64 {
    legal_mask_upto(s, 9)
}

pub open spec fn legal_mask_upto(s: State, n: nat) -> u64
    decreases n,
{
    if n == 0 {
        0
    } else {
        let rest = legal_mask_upto(s, (n - 1) as nat);
        if s.winner == 0 && s.board[n - 1] == 0 {
            (rest + pow2_u64((n - 1) as nat)) as u64
        } else {
            rest
        }
    }
}

pub open spec fn pow2_u64(n: nat) -> u64
    decreases n,
{
    if n == 0 {
        1
    } else {
        (2 * pow2_u64((n - 1) as nat)) as u64
    }
}

/// Whether a state's fields are in range.
pub open spec fn state_valid(s: State) -> bool {
    (s.current_player == 1 || s.current_player == 2) && s.winner <= 3 && forall|i: int|
        0 <= i < 9 ==> s.board[i] <= 2
}

impl State {
    /// The empty board with X to move.
    pub fn new() -> (r: State)
        ensures
            r.board@ == seq![0u8, 0, 0, 0, 0, 0, 0, 0, 0],
            r.current_player == 1,
            r.winner == 0,
    {
        let r = State { board: [0u8; 9], current_player: 1, winner: 0 };
        assert(r.board@ =~= seq![0u8, 0, 0, 0, 0, 0, 0, 0, 0]);
        r
    }

    pub fn is_done(&self) -> (r: bool)
        ensures
            r == (self.winner != 0),
    {
        self.winner != 0
    }

    /// Empty cells in increasing order, or none once the game is over.
    pub fn legal_moves(&self) -> (r: Vec<u8>)
        ensures
            r@ == legal_moves_of(*self),
    {
        let mut r: Vec<u8> = Vec::new();
        if self.is_done() {
            return r;
        }
        let mut pos: u8 = 0;
        while pos < 9
            invariant
                pos <= 9,
                self.winner == 0,
                r@ == empty_cells_upto(self.board@, pos as nat),
            decreases 9 - pos,
        {
            if self.board[pos as usize] == 0 {
                r.push(pos);
            }
            pos = pos + 1;
        }
        r
    }

    /// The state after placing the side to move's mark at `position`;
    /// unchanged when the move is not legal.
    pub fn make_move(&self, position: u8) -> (r: State)
        ensures
            r == after_move(*self, position),
    {
        if self.is_done() || position >= 9 || self.board[position as usize] != 0 {
            return *self;
        }
        let mut new_state = *self;
        new_state.board[position as usize] = self.current_player;
        new_state.winner = Self::check_winner(&new_state.board);
        if new_state.winner == 0 {
            new_state.current_player = if self.current_player == 1 {
                2
            } else {
                1
            };
        }
        proof {
            let expect = after_move(*self, position);
            assert(new_state.board =~= expect.board);
        }
        new_state
    }

    /// The winner of a board: the mark of the first complete line, else 3 on
    /// a full board, else 0.
    pub fn check_winner(board: &[u8; 9]) -> (r: u8)
        ensures
            r == winner_of(board@),
    {
        let w = line(board, 0, 1, 2);
        if w != 0 {
            return w;
        }
        let w = line(board, 3, 4, 5);
        if w != 0 {
            return w;
        }
        let w = line(board, 6, 7, 8);
        if w != 0 {
            return w;
        }
        let w = line(board, 0, 3, 6);
        if w != 0 {
            return w;
        }
        let w = line(board, 1, 4, 7);
        if w != 0 {
            return w;
        }
        let w = line(board, 2, 5, 8);
        if w != 0 {
            return w;
        }
        let w = line(board, 0, 4, 8);
        if w != 0 {
            return w;
        }
        let w = line(board, 2, 4, 6);
        if w != 0 {
            return w;
        }
        let mut i: usize = 0;
        while i < 9
            invariant
                i <= 9,
                forall|j: int| 0 <= j < i ==> board@[j] != 0,
                winner_of(board@) == (if board_full(board@) {
                    3u8
                } else {
                    0u8
                }),
            decreases 9 - i,
        {
            if board[i] == 0 {
                return 0;
            }
            i = i + 1;
        }
        3
    }

    /// Bit `i` set when cell `i` is a legal move.
    pub fn legal_mask(&self) -> (r: u64)
        ensures
            r == legal_mask_of(*self),
    {
        let mut mask: u64 = 0;
        let mut bit: u64 = 1;
        let mut i: usize = 0;
        while i < 9
            invariant
                i <= 9,
                bit == pow2_u64(i as nat),
                mask == legal_mask_upto(*self, i as nat),
                mask < bit,
            decreases 9 - i,
        {
            proof {
                lemma_pow2_small(i as nat);
                reveal_with_fuel(pow2_u64, 2);
            }
            if self.winner == 0 && self.board[i] == 0 {
                mask = mask + bit;
            }
            bit = bit * 2;
            i = i + 1;
        }
        mask
    }
}

proof fn lemma_pow2_small(n: nat)
    requires
        n <= 8,
    ensures
        pow2_u64(n) <= 256,
        pow2_u64(n + 1) == 2 * pow2_u64(n),
{
    reveal_with_fuel(pow2_u64, 10);
}

fn line(board: &[u8; 9], a: usize, b: usize, c: usize) -> (r: u8)
    requires
        a < 9,
        b < 9,
        c < 9,
    ensures
        r == line_owner(board@, a as int, b as int, c as int),
{
    if board[a] != 0 && board[a] == board[b] && board[b] == board[c] {
        board[a]
    } else {
        0
    }
}

/// A tic-tac-toe action.
#[derive(Debug, Clone, Copy, PartialEq, Eq)]
pub enum Action {
    /// Place the side to move's mark at a cell (0 to 8).
    Place(u8),
}

impl Action {
    pub open spec fn pos(self) -> u8 {
        match self {
            Action::Place(p) => p,
        }
    }

    /// The cell this action targets.
    pub fn position(&self) -> (r: u8)
        ensures
            r == self.pos(),
    {
        match self {
            Action::Place(pos) => *pos,
        }
    }
}

/// A network-friendly view of a state, as flags standing for 0.0 or 1.0.
#[derive(Debug, Clone, Copy, PartialEq, Eq)]
pub struct Observation {
    /// Cells held by X, then cells held by O.
    pub board_view: [bool; 18],
    /// Cells that are legal moves.
    pub legal_moves: [bool; 9],
    /// X to move, O to move.
    pub current_player: [bool; 2],
}

pub open spec fn board_flags(s: State) -> Seq<bool> {
    Seq::new(18, |i: int| if i < 9 { s.board[i] == 1 } else { s.board[i - 9] == 2 })
}

pub open spec fn legal_flags(s: State) -> Seq<bool> {
    Seq::new(9, |i: int| s.winner == 0 && s.board[i] == 0)
}

pub open spec fn player_flags(s: State) -> Seq<bool> {
    seq![s.current_player == 1, s.current_player != 1]
}

/// Little-endian bytes of the `f32` value 1.0 or 0.0.
pub open spec fn flag_bytes(f: bool) -> Seq<u8> {
    if f {
        seq![0u8, 0, 0x80, 0x3f]
    } else {
        seq![0u8, 0, 0, 0]
    }
}

/// Concatenated encodings of a run of flags.
pub open spec fn flags_bytes(f: Seq<bool>) -> Seq<u8>
    decreases f.len(),
{
    if f.len() == 0 {
        Seq::empty()
    } else {
        flags_bytes(f.drop_last()) + flag_bytes(f.last())
    }
}

/// The encoded observation of a state.
pub open spec fn obs_bytes_of(s: State) -> Seq<u8> {
    flags_bytes(board_flags(s)) + flags_bytes(legal_flags(s)) + flags_bytes(player_flags(s))
}

/// The bytes `encode_obs` writes for an observation.
pub open spec fn observation_bytes(o: Observation) -> Seq<u8> {
    flags_bytes(o.board_view@) + flags_bytes(o.legal_moves@) + flags_bytes(o.current_player@)
}

impl Observation {
    /// The observation of a state.
    pub fn from_state(state: &State) -> (r: Observation)
        ensures
            r.board_view@ == board_flags(*state),
            r.legal_moves@ == legal_flags(*state),
            r.current_player@ == player_flags(*state),
    {
        let mut board_view = [false; 18];
        let mut legal_moves = [false; 9];
        let mut i: usize = 0;
        while i < 9
            invariant
                i <= 9,
                forall|j: int| 0 <= j < 18 ==> #[trigger] board_view@[j] == if j < 9 {
                    j < i && state.board[j] == 1
                } else {
                    j - 9 < i && state.board[j - 9] == 2
                },
                forall|j: int| 0 <= j < 9 ==> #[trigger] legal_moves@[j] == (j < i && state.winner == 0
                    && state.board[j] == 0),
            decreases 9 - i,
        {
            let cell = state.board[i];
            if cell == 1 {
                board_view[i] = true;
            } else if cell == 2 {
                board_view[i + 9] = true;
            }
            if state.winner == 0 && cell == 0 {
                legal_moves[i] = true;
            }
            i = i + 1;
        }
        let current_player = if state.current_player == 1 {
            [true, false]
        } else {
            [false, true]
        };
        let r = Observation { board_view, legal_moves, current_player };
        assert(r.board_view@ =~= board_flags(*state));
        assert(r.legal_moves@ =~= legal_flags(*state));
        assert(r.current_player@ =~= player_flags(*state));
        r
    }
}

/// Appends the encodings of `flags` to `out`.
fn push_flags(flags: &[bool], out: &mut Vec<u8>)
    ensures
        final(out)@ == old(out)@ + flags_bytes(flags@),
{
    let mut i: usize = 0;
    while i < flags.len()
        invariant
            i <= flags.len(),
            out@ == old(out)@ + flags_bytes(flags@.subrange(0, i as int)),
        decreases flags.len() - i,
    {
        proof {
            assert(flags@.subrange(0, i + 1).drop_last() =~= flags@.subrange(0, i as int));
        }
        if flags[i] {
            out.push(0);
            out.push(0);
            out.push(0x80);
            out.push(0x3f);
        } else {
            out.push(0);
            out.push(0);
            out.push(0);
            out.push(0);
        }
        proof {
            assert(out@ =~= old(out)@ + flags_bytes(flags@.subrange(0, i + 1)));
        }
        i = i + 1;
    }
    assert(flags@.subrange(0, flags.len() as int) =~= flags@);
}

/// The empty board with X to move, as a spec value.
pub open spec fn initial_state() -> State {
    State { board: spec_array_fill_for_copy_type::<u8, 9>(0), current_player: 1, winner: 0 }
}

/// The reward, as `f32` bits, for the player who just moved.
pub open spec fn reward_of(s: State, previous_player: u8) -> u32 {
    if s.winner == 1 || s.winner == 2 {
        if previous_player == s.winner {
            REWARD_WIN
        } else {
            REWARD_LOSS
        }
    } else {
        REWARD_NONE
    }
}

/// The state a well-formed 11-byte encoding stands for.
pub open spec fn state_from(b: Seq<u8>) -> State {
    choose|s: State| s.board@ == b.subrange(0, 9) && s.current_player == b[9] && s.winner == b[10]
}

/// Whether bytes are a well-formed state encoding.
pub open spec fn state_bytes_valid(b: Seq<u8>) -> bool {
    &&& b.len() == STATE_LEN
    &&& b[9] == 1 || b[9] == 2
    &&& b[10] <= 3
    &&& forall|i: int| 0 <= i < 9 ==> b[i] <= 2
}

pub open spec fn encode_state_spec(s: State) -> Seq<u8> {
    s.board@ + seq![s.current_player, s.winner]
}

pub open spec fn decode_state_spec(b: Seq<u8>) -> Option<State> {
    if state_bytes_valid(b) {
        Some(state_from(b))
    } else {
        None
    }
}

pub open spec fn decode_action_spec(b: Seq<u8>) -> Option<Action> {
    if b.len() == 1 && b[0] < 9 {
        Some(Action::Place(b[0]))
    } else {
        None
    }
}

/// What tic-tac-toe advertises: nine cells, so at most nine moves and nine
/// discrete actions.
pub open spec fn tictactoe_caps() -> CapsView {
    CapsView {
        env_id: "tictactoe"@,
        build_id: "0.1.0"@,
        state_schema: "tictactoe_state:v1"@,
        action_schema: "discrete_position:v1"@,
        obs_schema: "f32x29:v1"@,
        schema_version: 1,
        max_horizon: 9,
        action_space: SpaceView::Discrete(9),
        preferred_batch: 64,
    }
}

/// The tic-tac-toe environment.
#[derive(Debug)]
pub struct TicTacToe;

impl TicTacToe {
    pub fn new() -> (r: TicTacToe) {
        TicTacToe
    }

    /// The environment id `tictactoe`.
    pub fn engine_id(&self) -> (r: EngineId)
        ensures
            r.env_id@ == tictactoe_caps().env_id,
            r.build_id@ == tictactoe_caps().build_id,
    {
        EngineId { env_id: "tictactoe".to_owned(), build_id: "0.1.0".to_owned() }
    }

    /// Nine cells to play in, so at most nine moves and nine discrete actions.
    pub fn capabilities(&self) -> (r: Capabilities)
        ensures
            r@ == tictactoe_caps(),
    {
        Capabilities {
            id: self.engine_id(),
            encoding: Encoding {
                state: "tictactoe_state:v1".to_owned(),
                action: "discrete_position:v1".to_owned(),
                obs: "f32x29:v1".to_owned(),
                schema_version: 1,
            },
            max_horizon: 9,
            action_space: ActionSpace::Discrete(9),
            preferred_batch: 64,
        }
    }

    /// The reward bits for the player who just moved.
    fn calculate_reward(state: &State, previous_player: u8) -> (r: u32)
        ensures
            r == reward_of(*state, previous_player),
    {
        if state.winner == 1 || state.winner == 2 {
            if previous_player == state.winner {
                REWARD_WIN
            } else {
                REWARD_LOSS
            }
        } else {
            REWARD_NONE
        }
    }

    /// Appends the 11-byte encoding of `state`: cells, side to move, winner.
    pub fn encode_state(state: &State, out: &mut Vec<u8>) -> (r: Result<(), EncodeError>)
        ensures
            r is Ok,
            final(out)@ == old(out)@ + encode_state_spec(*state),
    {
        let mut i: usize = 0;
        while i < 9
            invariant
                i <= 9,
                out@ == old(out)@ + state.board@.subrange(0, i as int),
            decreases 9 - i,
        {
            out.push(state.board[i]);
            proof {
                assert(out@ =~= old(out)@ + state.board@.subrange(0, i + 1));
            }
            i = i + 1;
        }
        out.push(state.current_player);
        out.push(state.winner);
        assert(out@ =~= old(out)@ + encode_state_spec(*state));
        Ok(())
    }

    /// Decodes an 11-byte state; rejects any other length, a side to move
    /// other than 1 or 2, a winner above 3 and a cell above 2.
    pub fn decode_state(buf: &[u8]) -> (r: Result<State, DecodeError>)
        ensures
            buf@.len() != STATE_LEN ==> r == Err::<State, DecodeError>(
                DecodeError::InvalidLength { expected: STATE_LEN, actual: buf@.len() as usize },
            ),
            buf@.len() == STATE_LEN && !state_bytes_valid(buf@) ==> r is Err && r->Err_0 is CorruptedData,
            state_bytes_valid(buf@) ==> r == Ok::<State, DecodeError>(state_from(buf@)),
    {
        if buf.len() != STATE_LEN {
            return Err(DecodeError::InvalidLength { expected: STATE_LEN, actual: buf.len() });
        }
        let mut board = [0u8; 9];
        let mut i: usize = 0;
        while i < 9
            invariant
                i <= 9,
                buf@.len() == STATE_LEN,
                forall|j: int| 0 <= j < i ==> board@[j] == buf@[j],
            decreases 9 - i,
        {
            board[i] = buf[i];
            i = i + 1;
        }
        let current_player = buf[9];
        let winner = buf[10];
        if current_player != 1 && current_player != 2 {
            return Err(DecodeError::CorruptedData("invalid current_player".to_owned()));
        }
        if winner > 3 {
            return Err(DecodeError::CorruptedData("invalid winner".to_owned()));
        }
        let mut k: usize = 0;
        while k < 9
            invariant
                k <= 9,
                buf@.len() == STATE_LEN,
                forall|j: int| 0 <= j < k ==> buf@[j] <= 2,
                forall|j: int| 0 <= j < 9 ==> board@[j] == buf@[j],
            decreases 9 - k,
        {
            if board[k] > 2 {
                return Err(DecodeError::CorruptedData("invalid board cell".to_owned()));
            }
            k = k + 1;
        }
        let s = State { board, current_player, winner };
        proof {
            assert(s.board@ =~= buf@.subrange(0, 9));
            let t = state_from(buf@);
            assert(t.board@ =~= s.board@);
            assert(t.board =~= s.board);
        }
        Ok(s)
    }

    /// Appends the one-byte encoding of an action; rejects a cell above 8.
    pub fn encode_action(action: &Action, out: &mut Vec<u8>) -> (r: Result<(), EncodeError>)
        ensures
            r is Ok <==> action.pos() < 9,
            r is Ok ==> final(out)@ == old(out)@.push(action.pos()),
            r is Err ==> r->Err_0 is InvalidData && final(out)@ == old(out)@,
    {
        let position = action.position();
        if position >= 9 {
            return Err(EncodeError::InvalidData("invalid action position".to_owned()));
        }
        out.push(position);
        Ok(())
    }

    /// Decodes a one-byte action; rejects any other length and a cell above 8.
    pub fn decode_action(buf: &[u8]) -> (r: Result<Action, DecodeError>)
        ensures
            buf@.len() != 1 ==> r == Err::<Action, DecodeError>(
                DecodeError::InvalidLength { expected: 1, actual: buf@.len() as usize },
            ),
            buf@.len() == 1 && buf@[0] >= 9 ==> r is Err && r->Err_0 is CorruptedData,
            buf@.len() == 1 && buf@[0] < 9 ==> r == Ok::<Action, DecodeError>(Action::Place(buf@[0])),
    {
        if buf.len() != 1 {
            return Err(DecodeError::InvalidLength { expected: 1, actual: buf.len() });
        }
        let position = buf[0];
        if position >= 9 {
            return Err(DecodeError::CorruptedData("invalid action position".to_owned()));
        }
        Ok(Action::Place(position))
    }

    /// Appends the 116-byte encoding of an observation.
    pub fn encode_obs(obs: &Observation, out: &mut Vec<u8>) -> (r: Result<(), EncodeError>)
        ensures
            r is Ok,
            final(out)@ == old(out)@ + observation_bytes(*obs),
    {
        push_flags(obs.board_view.as_slice(), out);
        push_flags(obs.legal_moves.as_slice(), out);
        push_flags(obs.current_player.as_slice(), out);
        assert(out@ =~= old(out)@ + observation_bytes(*obs));
        Ok(())
    }
}

impl Game for TicTacToe {
    type State = State;
    type Action = Action;
    type Obs = Observation;

    open spec fn state_encodable(s: State) -> bool {
        true
    }

    open spec fn state_bytes(s: State) -> Seq<u8> {
        encode_state_spec(s)
    }

    open spec fn state_of_bytes(b: Seq<u8>) -> Option<State> {
        decode_state_spec(b)
    }

    open spec fn action_encodable(a: Action) -> bool {
        a.pos() < 9
    }

    open spec fn action_bytes(a: Action) -> Seq<u8> {
        seq![a.pos()]
    }

    open spec fn action_of_bytes(b: Seq<u8>) -> Option<Action> {
        decode_action_spec(b)
    }

    open spec fn obs_encodable(o: Observation) -> bool {
        true
    }

    open spec fn obs_bytes(o: Observation) -> Seq<u8> {
        observation_bytes(o)
    }

    open spec fn rng_free() -> bool {
        true
    }

    open spec fn initial(hint: Seq<u8>) -> (State, Seq<u8>) {
        (initial_state(), obs_bytes_of(initial_state()))
    }

    open spec fn transition(s: State, a: Action) -> (State, Seq<u8>, u32, bool) {
        let next = after_move(s, a.pos());
        (next, obs_bytes_of(next), reward_of(next, s.current_player), next.winner != 0)
    }

    open spec fn info_of(s: State) -> u64 {
        legal_mask_of(s)
    }

    open spec fn caps(&self) -> CapsView {
        tictactoe_caps()
    }

    fn engine_id(&self) -> (r: EngineId) {
        TicTacToe::engine_id(self)
    }

    fn capabilities(&self) -> (r: Capabilities) {
        TicTacToe::capabilities(self)
    }

    fn reset(&mut self, rng: &mut ChaCha20Rng, hint: &[u8]) -> (r: (State, Observation)) {
        let state = State::new();
        assert(state.board =~= initial_state().board);
        let obs = Observation::from_state(&state);
        (state, obs)
    }

    fn step(&mut self, state: &mut State, action: Action, rng: &mut ChaCha20Rng) -> (r: (
        Observation,
        u32,
        bool,
    )) {
        let previous_player = state.current_player;
        *state = state.make_move(action.position());
        let obs = Observation::from_state(state);
        let reward = Self::calculate_reward(state, previous_player);
        let done = state.is_done();
        (obs, reward, done)
    }

    fn info(state: &State) -> (r: u64) {
        state.legal_mask()
    }

    fn encode_state(state: &State, out: &mut Vec<u8>) -> (r: Result<(), EncodeError>) {
        TicTacToe::encode_state(state, out)
    }

    fn decode_state(buf: &[u8]) -> (r: Result<State, DecodeError>) {
        TicTacToe::decode_state(buf)
    }

    fn encode_action(action: &Action, out: &mut Vec<u8>) -> (r: Result<(), EncodeError>) {
        TicTacToe::encode_action(action, out)
    }

    fn decode_action(buf: &[u8]) -> (r: Result<Action, DecodeError>) {
        TicTacToe::decode_action(buf)
    }

    fn encode_obs(obs: &Observation, out: &mut Vec<u8>) -> (r: Result<(), EncodeError>) {
        TicTacToe::encode_obs(obs, out)
    }
}

/// Decoding the encoding of a well-formed state gives the state back.
pub proof fn lemma_state_round_trip(s: State)
    requires
        state_valid(s),
    ensures
        decode_state_spec(encode_state_spec(s)) == Some(s),
{
    let b = encode_state_spec(s);
    assert(b.subrange(0, 9) =~= s.board@);
    let t = state_from(b);
    assert(t.board@ == s.board@);
    assert(t.board =~= s.board);
}

/// Decoding the encoding of an on-board action gives the action back.
pub proof fn lemma_action_round_trip(a: Action)
    requires
        a.pos() < 9,
    ensures
        decode_action_spec(seq![a.pos()]) == Some(a),
{
}

/// Four bytes per flag.
pub proof fn lemma_flags_bytes_len(f: Seq<bool>)
    ensures
        flags_bytes(f).len() == 4 * f.len(),
    decreases f.len(),
{
    if f.len() > 0 {
        lemma_flags_bytes_len(f.drop_last());
    }
}

/// Every encoded observation is 116 bytes long.
pub proof fn lemma_obs_len(o: Observation)
    ensures
        observation_bytes(o).len() == OBS_LEN,
{
    lemma_flags_bytes_len(o.board_view@);
    lemma_flags_bytes_len(o.legal_moves@);
    lemma_flags_bytes_len(o.current_player@);
}

/// The encoded observation of any state is 116 bytes long.
pub proof fn lemma_state_obs_len(s: State)
    ensures
        obs_bytes_of(s).len() == OBS_LEN,
{
    lemma_flags_bytes_len(board_flags(s));
    lemma_flags_bytes_len(legal_flags(s));
    lemma_flags_bytes_len(player_flags(s));
}

/// The initial state is well formed, and moves keep a state well formed: so
/// every reachable state is well formed.
pub proof fn lemma_reachable_valid(s: State, p: u8)
    ensures
        state_valid(initial_state()),
        state_valid(s) ==> state_valid(after_move(s, p)),
{
    if state_valid(s) && move_applies(s, p) {
        let n = after_move(s, p);
        assert forall|i: int| 0 <= i < 9 implies n.board[i] <= 2 by {
            if i != p as int {
                assert(n.board@[i] == s.board@[i]);
            }
        }
        assert(n.winner <= 3) by {
            let b = n.board@;
            assert(forall|i: int| 0 <= i < 9 ==> b[i] <= 2);
        }
    }
}

} // verus!

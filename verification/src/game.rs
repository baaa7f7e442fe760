use vstd::prelude::*;

use crate::board::{empty_grid, eval_outcome, Board};
use crate::game_error::GameError;
use crate::game_mode::GameMode;
use crate::player::Player;
use crate::player_symbol::PlayerSymbol;

verus! {

/// The orchestration of one match: the board, the two seated players, whose
/// turn it is, the chosen mode, and the terminal flag. Created once per run;
/// a new match gets a new Game.
pub struct Game {
    pub board: Board,
    pub game_mode: GameMode,
    pub players: Vec<Player>,
    pub current_player_index: usize,
    pub game_over: bool,
}

impl Game {
    /// Structural validity: a well-formed board, exactly two players seated
    /// 1 and 2 in that order, and a current-player index that names one of
    /// them.
    pub open spec fn wf(self) -> bool {
        self.board.wf() && self.players@.len() == 2 && self.current_player_index < 2
            && self.players@[0].number == 1 && self.players@[1].number == 2
    }

    /// Creates a fresh game: empty board, two-player mode, Cross seated 1
    /// and to move first, Nought seated 2, not over.
    pub fn new() -> (g: Game)
        ensures
            g.wf(),
            g.board.grid() == empty_grid(),
            g.board.winner is None,
            g.game_mode == GameMode::TwoPlayer,
            g.current_player_index == 0,
            g.game_over == false,
            g.players@[0] == (Player { symbol: PlayerSymbol::Cross, number: 1 }),
            g.players@[1] == (Player { symbol: PlayerSymbol::Nought, number: 2 }),
    {
        Game::default()
    }

    /// The current game mode.
    pub fn game_mode(&self) -> (m: &GameMode)
        ensures
            *m == self.game_mode,
    {
        &self.game_mode
    }

    /// Records the chosen game mode; nothing else moves.
    pub fn set_game_mode(&mut self, game_mode: GameMode)
        ensures
            *final(self) == (Game { game_mode, ..*old(self) }),
    {
        self.game_mode = game_mode;
    }

    /// A shared borrow of the board.
    pub fn board(&self) -> (b: &Board)
        ensures
            *b == self.board,
    {
        &self.board
    }

    /// A mutable borrow of the board; the rest of the game is untouched by
    /// whatever the caller does through it.
    pub fn board_mut(&mut self) -> (b: &mut Board)
        ensures
            *b == old(self).board,
            *final(self) == (Game { board: *final(b), ..*old(self) }),
    {
        &mut self.board
    }

    /// A copy of the player whose turn it is.
    pub fn current_player(&self) -> (p: Player)
        requires
            self.wf(),
        ensures
            p == self.players@[self.current_player_index as int],
    {
        self.players[self.current_player_index]
    }

    /// A mutable borrow of the player whose turn it is; only that player's
    /// slot can change through it.
    pub fn current_player_mut(&mut self) -> (p: &mut Player)
        requires
            old(self).wf(),
        ensures
            *p == old(self).players@[old(self).current_player_index as int],
            final(self).players@ == old(self).players@.update(
                old(self).current_player_index as int,
                *final(p),
            ),
            final(self).board == old(self).board,
            final(self).game_mode == old(self).game_mode,
            final(self).current_player_index == old(self).current_player_index,
            final(self).game_over == old(self).game_over,
    {
        &mut self.players[self.current_player_index]
    }

    /// The symbol of the player whose turn it is.
    pub fn current_player_symbol(&self) -> (s: PlayerSymbol)
        requires
            self.wf(),
        ensures
            s == self.players@[self.current_player_index as int].symbol,
    {
        self.current_player().symbol()
    }

    /// A shared borrow of the player list. Always of length two in a
    /// well-formed game.
    pub fn players(&self) -> (v: &Vec<Player>)
        ensures
            *v == self.players,
    {
        &self.players
    }

    /// A mutable borrow of the player list. The caller is responsible for
    /// leaving the game well formed.
    pub fn players_mut(&mut self) -> (v: &mut Vec<Player>)
        ensures
            *v == old(self).players,
            final(self).players == *final(v),
            final(self).board == old(self).board,
            final(self).game_mode == old(self).game_mode,
            final(self).current_player_index == old(self).current_player_index,
            final(self).game_over == old(self).game_over,
    {
        &mut self.players
    }

    /// A copy of the player seated after the current one, wrapping around.
    pub fn get_next_player(&self) -> (p: Player)
        requires
            self.wf(),
        ensures
            p == self.players@[((self.current_player_index + 1) % 2) as int],
    {
        self.players[(self.current_player_index + 1) % self.players.len()]
    }

    /// A mutable borrow of the player seated after the current one, wrapping
    /// around, or `NoPlayersAvailable` on an empty player list. Only that
    /// player's slot can change through the borrow.
    pub fn get_next_player_mut(&mut self) -> (r: Result<&mut Player, GameError>)
        requires
            old(self).players@.len() == 0 || old(self).wf(),
        ensures
            old(self).players@.len() == 0 ==> r == Err::<&mut Player, GameError>(
                GameError::NoPlayersAvailable,
            ) && *final(self) == *old(self),
            old(self).players@.len() != 0 ==> (r matches Ok(p) && *p == old(self).players@[((old(
                self,
            ).current_player_index + 1) % 2) as int] && final(self).players@ == old(
                self,
            ).players@.update(((old(self).current_player_index + 1) % 2) as int, *final(p))
                && final(self).board == old(self).board && final(self).game_mode == old(
                self,
            ).game_mode && final(self).current_player_index == old(self).current_player_index
                && final(self).game_over == old(self).game_over),
    {
        if self.players.is_empty() {
            return Err(GameError::NoPlayersAvailable);
        }
        let mut cur_idx = self.players[self.current_player_index].get_player_number() as usize;
        // The seat number is 1-based; the next seat wraps past the end.
        cur_idx -= 1;
        cur_idx = (cur_idx + 1) % self.players.len();
        Ok(&mut self.players[cur_idx])
    }

    /// Pre-game setup: gives the target player (the current one, handed in
    /// by the caller) the requested symbol and forces the other player's
    /// symbol to the opposite, keeping the two complementary. Fails with
    /// `SymbolUnchanged`, changing nothing, when the target already has the
    /// requested symbol.
    pub fn set_player_symbol(
        &mut self,
        current_player: &mut Player,
        symbol: PlayerSymbol,
    ) -> (r: Result<(), GameError>)
        requires
            old(self).wf(),
        ensures
            final(self).wf(),
            old(current_player).symbol == symbol ==> r == Err::<(), GameError>(
                GameError::SymbolUnchanged,
            ) && *final(self) == *old(self) && *final(current_player) == *old(current_player),
            old(current_player).symbol != symbol ==> r == Ok::<(), GameError>(()) && ({
                let cur = old(self).current_player_index as int;
                let nxt = ((old(self).current_player_index + 1) % 2) as int;
                *final(current_player) == (Player {
                    symbol,
                    number: old(current_player).number,
                }) && final(self).players@ == old(self).players@.update(
                    cur,
                    Player { symbol, number: old(self).players@[cur].number },
                ).update(
                    nxt,
                    Player {
                        symbol: symbol.spec_opposite(),
                        number: old(self).players@[nxt].number,
                    },
                ) && final(self).board == old(self).board && final(self).game_mode == old(
                    self,
                ).game_mode && final(self).current_player_index == old(self).current_player_index
                    && final(self).game_over == old(self).game_over
            }),
    {
        if current_player.symbol() == symbol {
            return Err(GameError::SymbolUnchanged);
        }
        current_player.set_symbol(symbol);
        self.current_player_mut().set_symbol(symbol);
        match self.get_next_player_mut() {
            Ok(opp) => {
                opp.set_symbol(symbol.opposite());
            },
            Err(e) => {
                return Err(e);
            },
        }
        Ok(())
    }

    /// Hands the turn to the other player: the current-player index advances
    /// by one modulo the number of players. To be called exactly once per
    /// completed legal placement, never on a rejected one. Fails with
    /// `NoPlayersAvailable`, changing nothing, on an empty player list.
    pub fn advance_turn(&mut self) -> (r: Result<(), GameError>)
        requires
            old(self).players@.len() == 0 || old(self).wf(),
        ensures
            old(self).players@.len() == 0 ==> r == Err::<(), GameError>(
                GameError::NoPlayersAvailable,
            ) && *final(self) == *old(self),
            old(self).players@.len() != 0 ==> r == Ok::<(), GameError>(()) && *final(self) == (Game {
                current_player_index: ((old(self).current_player_index + 1) % 2) as usize,
                ..*old(self)
            }),
    {
        if self.players.is_empty() {
            return Err(GameError::NoPlayersAvailable);
        }
        self.current_player_index = (self.current_player_index + 1) % self.players.len();
        Ok(())
    }

    /// Terminal-state query, delegated to the board: true when a line is
    /// complete or the grid is full. A found line's owner ends up cached in
    /// the board's winner field.
    pub fn is_over(&mut self) -> (r: bool)
        requires
            old(self).wf(),
        ensures
            final(self).board.cells == old(self).board.cells,
            final(self).board.width == old(self).board.width,
            final(self).board.height == old(self).board.height,
            final(self).players == old(self).players,
            final(self).game_mode == old(self).game_mode,
            final(self).current_player_index == old(self).current_player_index,
            final(self).game_over == old(self).game_over,
            (r, final(self).board.winner) == eval_outcome(
                old(self).board.grid(),
                old(self).board.winner,
            ),
    {
        self.board.is_game_over()
    }

    /// The winner, if the board is presently terminal with a completed line;
    /// None while the game goes on and None for a draw. Delegated to the
    /// board's `get_winner`.
    pub fn winner(&mut self) -> (r: Option<PlayerSymbol>)
        requires
            old(self).wf(),
        ensures
            final(self).board.cells == old(self).board.cells,
            final(self).board.width == old(self).board.width,
            final(self).board.height == old(self).board.height,
            final(self).players == old(self).players,
            final(self).game_mode == old(self).game_mode,
            final(self).current_player_index == old(self).current_player_index,
            final(self).game_over == old(self).game_over,
            ({
                let (over, w) = eval_outcome(old(self).board.grid(), old(self).board.winner);
                final(self).board.winner == w && r == (if over {
                    w
                } else {
                    None::<PlayerSymbol>
                })
            }),
    {
        self.board.get_winner()
    }

    /// Whether the terminal flag has been raised.
    pub fn game_over(&self) -> (r: bool)
        ensures
            r == self.game_over,
    {
        self.game_over
    }

    /// Raises (or clears) the terminal flag; the callers of the core only
    /// ever raise it, the first time the board reports the game over.
    pub fn set_game_over(&mut self, game_over: bool)
        ensures
            *final(self) == (Game { game_over, ..*old(self) }),
    {
        self.game_over = game_over;
    }
}

impl Default for Game {
    /// The fresh game `Game::new` promises.
    fn default() -> (g: Game)
        ensures
            g.wf(),
            g.board.grid() == empty_grid(),
            g.board.winner is None,
            g.game_mode == GameMode::TwoPlayer,
            g.current_player_index == 0,
            g.game_over == false,
            g.players@[0] == (Player { symbol: PlayerSymbol::Cross, number: 1 }),
            g.players@[1] == (Player { symbol: PlayerSymbol::Nought, number: 2 }),
    {
        let mut players: Vec<Player> = Vec::new();
        players.push(Player::new(PlayerSymbol::Cross, 1));
        players.push(Player::new(PlayerSymbol::Nought, 2));
        Game {
            board: Board::new(),
            game_mode: GameMode::TwoPlayer,
            players,
            current_player_index: 0,
            game_over: false,
        }
    }
}

} // verus!

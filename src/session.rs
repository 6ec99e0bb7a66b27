use vstd::prelude::*;

use crate::game::{is_new_game, GameState, Tab};

verus! {

/// A decoded player command.
#[derive(Clone, Copy, Debug, PartialEq, Eq, Structural)]
pub enum Action {
    Quit,
    Click,
    Buy,
    MoveUp,
    MoveDown,
    ToggleHelp,
    SwitchTab(Tab),
}

/// A running session: the game and whether the player asked to leave.
pub struct App {
    pub game_state: GameState,
    pub should_quit: bool,
}

impl App {
    pub open spec fn wf(&self) -> bool {
        self.game_state.wf()
    }

    pub fn new() -> (r: Self)
        ensures
            r.wf(),
            !r.should_quit,
            is_new_game(r.game_state),
    {
        App { game_state: GameState::default(), should_quit: false }
    }

    /// A simulation tick at time `now`.
    pub fn on_tick(&mut self, now: u64)
        requires
            old(self).wf(),
        ensures
            GameState::ticked(old(self).game_state, final(self).game_state, now),
            final(self).should_quit == old(self).should_quit,
            final(self).wf(),
    {
        self.game_state.update(now);
    }

    /// Handles one command issued at time `now`. Gold falls only through a
    /// purchase, and the total earned never falls.
    pub fn on_action(&mut self, action: Action, now: u64)
        requires
            old(self).wf(),
        ensures
            final(self).wf(),
            final(self).should_quit == (old(self).should_quit || action == Action::Quit),
            action != Action::Buy ==> final(self).game_state.gold >= old(self).game_state.gold,
            final(self).game_state.total_gold_earned >= old(self).game_state.total_gold_earned,
            match action {
                Action::Quit => final(self).game_state == old(self).game_state,
                Action::Click => GameState::clicked(old(self).game_state, final(self).game_state, now),
                Action::Buy => GameState::bought(old(self).game_state, final(self).game_state),
                Action::MoveUp => final(self).game_state == (GameState {
                    selected_upgrade: if old(self).game_state.selected_upgrade > 0 {
                        (old(self).game_state.selected_upgrade - 1) as usize
                    } else {
                        0
                    },
                    ..old(self).game_state
                }),
                Action::MoveDown => {
                    &&& final(self).game_state == (GameState {
                        selected_upgrade: final(self).game_state.selected_upgrade,
                        ..old(self).game_state
                    })
                    &&& final(self).game_state.selected_upgrade == if old(self).game_state.selected_upgrade + 1
                        < old(self).game_state.tab_len() {
                        old(self).game_state.selected_upgrade + 1
                    } else {
                        old(self).game_state.selected_upgrade as int
                    }
                },
                Action::ToggleHelp => final(self).game_state == (GameState {
                    show_help: !old(self).game_state.show_help,
                    ..old(self).game_state
                }),
                Action::SwitchTab(t) => if old(self).game_state.current_tab == t {
                    final(self).game_state == old(self).game_state
                } else {
                    final(self).game_state == (GameState {
                        current_tab: t,
                        selected_upgrade: 0,
                        ..old(self).game_state
                    })
                },
            },
    {
        match action {
            Action::Quit => self.should_quit = true,
            Action::Click => self.game_state.click_for_gold(now),
            Action::Buy => self.game_state.buy_selected(),
            Action::MoveUp => self.game_state.select_previous(),
            Action::MoveDown => self.game_state.select_next(),
            Action::ToggleHelp => self.game_state.show_help = !self.game_state.show_help,
            Action::SwitchTab(t) => self.game_state.switch_tab(t),
        }
    }
}

} // verus!

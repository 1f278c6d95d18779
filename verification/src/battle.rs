//! The battle coordinator: menu rendering, turn gating, and the single
//! damage-resolution path.

use vstd::prelude::*;
use crate::attack::BeastAttack;
use crate::attack::damage_of;
use crate::beast::Beast;
use crate::beast::HealthChangeOutcome;
use crate::types::BeastType;
use crate::types::modifier_tenths;

verus! {

/// Which side a combatant belongs to. Roles are fixed at configuration
/// time and never swapped.
#[derive(Clone, Copy, PartialEq, Eq, Structural, Debug)]
pub enum BeastOwner {
    Player,
    Enemy,
}

/// Which set of actions the menu currently offers.
#[derive(Clone, Copy, PartialEq, Eq, Structural, Debug)]
pub enum MenuState {
    Base,
    AttackChoice,
}

/// Whose side is currently permitted to act.
#[derive(Clone, Copy, PartialEq, Eq, Structural, Debug)]
pub enum TurnState {
    PlayerTurn,
    EnemyTurn,
}

/// One selectable menu action. An attack option carries the attack it was
/// rendered from, so that selecting it needs no index lookup that could
/// shift under a changed attack list.
#[derive(Debug)]
pub enum MenuAction {
    /// Opens the attack-choice menu; labeled "Attack".
    OpenAttackMenu,
    /// Fleeing; labeled "Flee". Its effect is not yet specified, so
    /// selecting it does nothing.
    Flee,
    /// Resolves the carried attack against the enemy side; labeled with
    /// the attack's name.
    UseAttack(BeastAttack),
}

impl Clone for MenuAction {
    /// A clone is equal to the action it was made from.
    fn clone(&self) -> (res: Self)
        ensures
            res == *self,
    {
        match self {
            MenuAction::OpenAttackMenu => MenuAction::OpenAttackMenu,
            MenuAction::Flee => MenuAction::Flee,
            MenuAction::UseAttack(attack) => MenuAction::UseAttack(attack.clone()),
        }
    }
}

impl MenuAction {
    /// The label under which this action is offered.
    pub open spec fn label_spec(self) -> Seq<char> {
        match self {
            MenuAction::OpenAttackMenu => "Attack"@,
            MenuAction::Flee => "Flee"@,
            MenuAction::UseAttack(attack) => attack.name@,
        }
    }

    /// The label under which this action is offered.
    pub fn label(&self) -> (l: String)
        ensures
            l@ == self.label_spec(),
    {
        match self {
            MenuAction::OpenAttackMenu => "Attack".to_owned(),
            MenuAction::Flee => "Flee".to_owned(),
            MenuAction::UseAttack(attack) => attack.name.clone(),
        }
    }
}

/// What resolving an attack reports back.
#[derive(Clone, Copy, PartialEq, Eq, Structural, Debug)]
pub enum AttackOutcome {
    /// A player-initiated attack arrived outside the player's turn: the
    /// action is discarded and nothing changes.
    OutOfTurn,
    /// Damage was routed to the target; the carried value is what the
    /// target's health change reported.
    Resolved(HealthChangeOutcome),
}

/// The actions the base menu offers: exactly "Attack" then "Flee".
pub open spec fn base_actions() -> Seq<MenuAction> {
    seq![MenuAction::OpenAttackMenu, MenuAction::Flee]
}

/// The actions the attack-choice menu offers: one per attack, in list
/// order, each carrying its attack.
pub open spec fn attack_actions(attacks: Seq<BeastAttack>) -> Seq<MenuAction> {
    attacks.map_values(|a: BeastAttack| MenuAction::UseAttack(a))
}

/// An attack list of length N renders exactly N actions, and the action
/// at each position carries that position's attack and is labeled with
/// its name.
pub proof fn lemma_attack_menu_labels(attacks: Seq<BeastAttack>)
    ensures
        attack_actions(attacks).len() == attacks.len(),
        forall|i: int|
            0 <= i < attacks.len() ==> attack_actions(attacks)[i] == MenuAction::UseAttack(
                attacks[i],
            ),
        forall|i: int|
            0 <= i < attacks.len() ==> attack_actions(attacks)[i].label_spec() == attacks[i].name@,
{
}

/// Owns the menu and turn state and the two combatants, and routes every
/// attack selection through the one damage-resolution path.
pub struct BattleCoordinator {
    pub player_beast: Beast,
    pub enemy_beast: Beast,
    pub menu_state: MenuState,
    pub turn_state: TurnState,
    /// The actions currently offered to the player, in offer order.
    pub actions: Vec<MenuAction>,
}

/// Relates a coordinator before a retraction to the one after it: every
/// offered action is withdrawn and everything else is untouched.
pub open spec fn retract_rel(pre: BattleCoordinator, post: BattleCoordinator) -> bool {
    &&& post.actions@ == Seq::<MenuAction>::empty()
    &&& post.player_beast == pre.player_beast
    &&& post.enemy_beast == pre.enemy_beast
    &&& post.menu_state == pre.menu_state
    &&& post.turn_state == pre.turn_state
}

impl BattleCoordinator {
    /// Both combatants are well formed.
    pub open spec fn wf(self) -> bool {
        &&& self.player_beast.wf()
        &&& self.enemy_beast.wf()
    }

    /// The actions the menu must offer in this state: the base pair during
    /// the player's turn at the base menu, one action per player-side
    /// attack at the attack choice, and none during the enemy's turn.
    pub open spec fn rendered_actions(self) -> Seq<MenuAction> {
        match self.turn_state {
            TurnState::PlayerTurn => match self.menu_state {
                MenuState::Base => base_actions(),
                MenuState::AttackChoice => attack_actions(self.player_beast.attacks@),
            },
            TurnState::EnemyTurn => Seq::<MenuAction>::empty(),
        }
    }

    /// The menu offers exactly what the current state calls for.
    pub open spec fn menu_consistent(self) -> bool {
        self.actions@ == self.rendered_actions()
    }

    /// A configured battle: both sides validated up front, the base menu
    /// selected, the player to act, and no actions offered yet (`ready`
    /// renders the first set).
    pub fn new(player_beast: Beast, enemy_beast: Beast) -> (c: BattleCoordinator)
        requires
            player_beast.wf(),
            enemy_beast.wf(),
        ensures
            c.wf(),
            c.player_beast == player_beast,
            c.enemy_beast == enemy_beast,
            c.menu_state == MenuState::Base,
            c.turn_state == TurnState::PlayerTurn,
            c.actions@ == Seq::<MenuAction>::empty(),
    {
        BattleCoordinator {
            player_beast,
            enemy_beast,
            menu_state: MenuState::Base,
            turn_state: TurnState::PlayerTurn,
            actions: Vec::new(),
        }
    }

    /// Withdraw every currently offered action. Retracting an already
    /// empty menu is valid and changes nothing.
    pub fn retract_actions(&mut self)
        ensures
            retract_rel(*old(self), *final(self)),
    {
        self.actions.clear();
    }

    /// Render the menu for the current state: first retract whatever was
    /// offered, then offer exactly the actions the state calls for.
    pub fn populate_menu(&mut self)
        requires
            old(self).wf(),
        ensures
            final(self).wf(),
            final(self).menu_consistent(),
            final(self).actions@ == old(self).rendered_actions(),
            final(self).player_beast == old(self).player_beast,
            final(self).enemy_beast == old(self).enemy_beast,
            final(self).menu_state == old(self).menu_state,
            final(self).turn_state == old(self).turn_state,
    {
        self.retract_actions();
        match self.turn_state {
            TurnState::PlayerTurn => match self.menu_state {
                MenuState::Base => {
                    self.actions.push(MenuAction::OpenAttackMenu);
                    self.actions.push(MenuAction::Flee);
                    proof {
                        assert(self.actions@ =~= base_actions());
                    }
                },
                MenuState::AttackChoice => {
                    let n = self.player_beast.attacks.len();
                    let mut i: usize = 0;
                    while i < n
                        invariant
                            i <= n,
                            n == self.player_beast.attacks@.len(),
                            self.actions@.len() == i,
                            forall|j: int|
                                0 <= j < i ==> self.actions@[j] == MenuAction::UseAttack(
                                    self.player_beast.attacks@[j],
                                ),
                            self.player_beast == old(self).player_beast,
                            self.enemy_beast == old(self).enemy_beast,
                            self.menu_state == old(self).menu_state,
                            self.turn_state == old(self).turn_state,
                        decreases n - i,
                    {
                        let attack = self.player_beast.attacks[i].clone();
                        self.actions.push(MenuAction::UseAttack(attack));
                        i = i + 1;
                    }
                    proof {
                        assert(self.actions@ =~= attack_actions(self.player_beast.attacks@));
                    }
                },
            },
            TurnState::EnemyTurn => {},
        }
    }

    /// Render the first menu when the battle scene becomes ready.
    pub fn ready(&mut self)
        requires
            old(self).wf(),
        ensures
            final(self).wf(),
            final(self).menu_consistent(),
            final(self).player_beast == old(self).player_beast,
            final(self).enemy_beast == old(self).enemy_beast,
            final(self).menu_state == old(self).menu_state,
            final(self).turn_state == old(self).turn_state,
    {
        self.populate_menu();
    }

    /// Selecting "Attack" at the base menu: the menu switches to the
    /// attack choice and re-renders, one action per player-side attack.
    pub fn on_attack_pressed(&mut self)
        requires
            old(self).wf(),
        ensures
            final(self).wf(),
            final(self).menu_state == MenuState::AttackChoice,
            final(self).menu_consistent(),
            final(self).player_beast == old(self).player_beast,
            final(self).enemy_beast == old(self).enemy_beast,
            final(self).turn_state == old(self).turn_state,
    {
        self.menu_state = MenuState::AttackChoice;
        self.populate_menu();
    }

    /// Selecting "Flee": deliberately a no-op until its outcome is
    /// specified.
    pub fn on_flee_pressed(&mut self)
        ensures
            *final(self) == *old(self),
    {
    }

    /// The combatant on the given side.
    pub open spec fn side(self, owner: BeastOwner) -> Beast {
        match owner {
            BeastOwner::Player => self.player_beast,
            BeastOwner::Enemy => self.enemy_beast,
        }
    }

    /// The damage `attack` deals to the combatant defending on side
    /// `attackee`: raw strength times the matchup multiplier.
    pub open spec fn damage_against(self, attackee: BeastOwner, attack: BeastAttack) -> int {
        damage_of(
            attack.strength as int,
            modifier_tenths(self.side(attackee).element, attack.element),
        )
    }

    /// The single damage-resolution path. A player-initiated attack
    /// outside the player's turn is discarded and nothing changes.
    /// Otherwise the target's elemental type picks the multiplier, the
    /// damage is applied to the target's health, the menu returns to its
    /// base state, and it is re-rendered.
    pub fn handle_attack(&mut self, attacker: BeastOwner, attackee: BeastOwner, attack: &BeastAttack)
        -> (outcome: AttackOutcome)
        requires
            old(self).wf(),
        ensures
            final(self).wf(),
            attacker == BeastOwner::Player && old(self).turn_state != TurnState::PlayerTurn ==> {
                &&& outcome == AttackOutcome::OutOfTurn
                &&& *final(self) == *old(self)
            },
            !(attacker == BeastOwner::Player && old(self).turn_state != TurnState::PlayerTurn)
                ==> {
                &&& outcome == AttackOutcome::Resolved(
                    old(self).side(attackee).change_health_outcome_spec(
                        -old(self).damage_against(attackee, *attack),
                    ),
                )
                &&& final(self).side(attackee) == old(self).side(attackee).change_health_spec(
                    -old(self).damage_against(attackee, *attack),
                )
                &&& attackee == BeastOwner::Enemy ==> final(self).player_beast == old(
                    self,
                ).player_beast
                &&& attackee == BeastOwner::Player ==> final(self).enemy_beast == old(
                    self,
                ).enemy_beast
                &&& final(self).menu_state == MenuState::Base
                &&& final(self).turn_state == old(self).turn_state
                &&& final(self).menu_consistent()
            },
    {
        if attacker == BeastOwner::Player && !(self.turn_state == TurnState::PlayerTurn) {
            return AttackOutcome::OutOfTurn;
        }
        let defender_element = match attackee {
            BeastOwner::Player => self.player_beast.element,
            BeastOwner::Enemy => self.enemy_beast.element,
        };
        let damage: u64 = attack.damage_to(defender_element);
        proof {
            // The multiplier is at most 20 tenths, so the damage fits in i64.
            crate::types::lemma_matchup_table_total(defender_element, attack.element);
        }
        let delta: i64 = -(damage as i64);
        let result = match attackee {
            BeastOwner::Player => self.player_beast.change_health(delta),
            BeastOwner::Enemy => self.enemy_beast.change_health(delta),
        };
        self.menu_state = MenuState::Base;
        self.populate_menu();
        AttackOutcome::Resolved(result)
    }

    /// Selecting an attack option at the attack choice: the carried attack
    /// is resolved from the player's side against the enemy's, and the
    /// menu returns to its base state.
    pub fn on_attack_option_pressed(&mut self, attack: &BeastAttack) -> (outcome: AttackOutcome)
        requires
            old(self).wf(),
        ensures
            final(self).wf(),
            old(self).turn_state != TurnState::PlayerTurn ==> {
                &&& outcome == AttackOutcome::OutOfTurn
                &&& *final(self) == *old(self)
            },
            old(self).turn_state == TurnState::PlayerTurn ==> {
                &&& outcome == AttackOutcome::Resolved(
                    old(self).enemy_beast.change_health_outcome_spec(
                        -old(self).damage_against(BeastOwner::Enemy, *attack),
                    ),
                )
                &&& final(self).enemy_beast == old(self).enemy_beast.change_health_spec(
                    -old(self).damage_against(BeastOwner::Enemy, *attack),
                )
                &&& final(self).player_beast == old(self).player_beast
                &&& final(self).menu_state == MenuState::Base
                &&& final(self).turn_state == old(self).turn_state
                &&& final(self).menu_consistent()
            },
    {
        self.handle_attack(BeastOwner::Player, BeastOwner::Enemy, attack)
    }
}

/// Retraction is idempotent: retracting an already retracted menu leaves
/// zero actions and changes nothing else, however often it is repeated.
pub proof fn lemma_retract_idempotent(c0: BattleCoordinator, c1: BattleCoordinator, c2: BattleCoordinator)
    requires
        retract_rel(c0, c1),
        retract_rel(c1, c2),
    ensures
        c2.actions@.len() == 0,
        c2.actions@ == c1.actions@,
        c2.player_beast == c1.player_beast,
        c2.enemy_beast == c1.enemy_beast,
        c2.menu_state == c1.menu_state,
        c2.turn_state == c1.turn_state,
{
}

} // verus!

//! Menu rules: what each button does, keyboard and gamepad focus
//! navigation, and the language buttons' labels.
use vstd::prelude::*;
use crate::localization::{Language, native_name_of};
use crate::state::{AppState, GameProgress, GameSettings};

verus! {

/// Which menu button an entity is, so one handler can serve every menu.
#[derive(Debug, Clone, Copy, PartialEq, Eq, Structural)]
pub enum MenuAction {
    Play,
    About,
    Options,
    Exit,
    Back,
    Resume,
    ExitToMenu,
    PlayAgain,
    SetLanguage(Language),
}

/// Buttons on the main menu: Play, About, Options and Exit.
pub const MAIN_MENU_BUTTON_COUNT: u32 = 4;

/// What the engine must do once a button is pressed (each press also plays
/// the click sound).
#[derive(Debug, Clone, Copy, PartialEq, Eq, Structural)]
pub struct MenuOutcome {
    pub next_state: Option<AppState>,
    /// Load this level.
    pub load_level: Option<usize>,
    /// Despawn the loaded level.
    pub unload_level: bool,
    /// Quit the application.
    pub exit: bool,
}

/// The outcome of pressing a button.
pub open spec fn outcome_of(action: MenuAction) -> MenuOutcome {
    match action {
        MenuAction::Play | MenuAction::PlayAgain => MenuOutcome {
            next_state: Some(AppState::Playing),
            load_level: Some(0),
            unload_level: false,
            exit: false,
        },
        MenuAction::About => MenuOutcome {
            next_state: Some(AppState::About),
            load_level: None,
            unload_level: false,
            exit: false,
        },
        MenuAction::Options => MenuOutcome {
            next_state: Some(AppState::Options),
            load_level: None,
            unload_level: false,
            exit: false,
        },
        MenuAction::SetLanguage(_) | MenuAction::Back => MenuOutcome {
            next_state: Some(AppState::MainMenu),
            load_level: None,
            unload_level: false,
            exit: false,
        },
        MenuAction::Exit => MenuOutcome { next_state: None, load_level: None, unload_level: false, exit: true },
        MenuAction::Resume => MenuOutcome {
            next_state: Some(AppState::Playing),
            load_level: None,
            unload_level: false,
            exit: false,
        },
        MenuAction::ExitToMenu => MenuOutcome {
            next_state: Some(AppState::MainMenu),
            load_level: None,
            unload_level: true,
            exit: false,
        },
    }
}

/// Presses a button: changes the settings and progress it governs and says
/// what else must happen. Choosing a language stores it and returns to the
/// main menu, which then shows every label in it; playing again clears the
/// coins and starts over from the first level.
pub fn press(action: MenuAction, settings: &mut GameSettings, progress: &mut GameProgress) -> (r: MenuOutcome)
    ensures
        r == outcome_of(action),
        final(settings).language == (match action {
            MenuAction::SetLanguage(lang) => lang,
            _ => old(settings).language,
        }),
        final(settings).play_sounds == old(settings).play_sounds,
        final(settings).debug_draw == old(settings).debug_draw,
        final(settings).chroma_glitch == old(settings).chroma_glitch,
        final(settings).invulnerable == old(settings).invulnerable,
        final(progress).coins_collected == (if action == MenuAction::PlayAgain {
            0
        } else {
            old(progress).coins_collected
        }),
        final(progress).current_level == old(progress).current_level,
{
    let none = MenuOutcome { next_state: None, load_level: None, unload_level: false, exit: false };
    match action {
        MenuAction::Play => MenuOutcome { next_state: Some(AppState::Playing), load_level: Some(0), ..none },
        MenuAction::About => MenuOutcome { next_state: Some(AppState::About), ..none },
        MenuAction::Options => MenuOutcome { next_state: Some(AppState::Options), ..none },
        MenuAction::SetLanguage(lang) => {
            settings.language = lang;
            MenuOutcome { next_state: Some(AppState::MainMenu), ..none }
        },
        MenuAction::Exit => MenuOutcome { exit: true, ..none },
        MenuAction::Back => MenuOutcome { next_state: Some(AppState::MainMenu), ..none },
        MenuAction::Resume => MenuOutcome { next_state: Some(AppState::Playing), ..none },
        MenuAction::ExitToMenu => MenuOutcome { next_state: Some(AppState::MainMenu), unload_level: true, ..none },
        MenuAction::PlayAgain => {
            progress.reset_coins();
            MenuOutcome { next_state: Some(AppState::Playing), load_level: Some(0), ..none }
        },
    }
}

/// The label of the button that selects `lang`: its native name, marked
/// with `> ` when it is the language in use.
pub open spec fn language_label(lang: Language, current: Language) -> Seq<char> {
    if lang == current {
        "> "@ + native_name_of(lang)
    } else {
        native_name_of(lang)
    }
}

/// The label of the button that selects `lang`.
pub fn language_button_label(lang: Language, current: Language) -> (r: String)
    ensures
        r@ == language_label(lang, current),
{
    let name = lang.native_name();
    if lang == current {
        String::from_str("> ").concat(name)
    } else {
        String::from_str(name)
    }
}

// --- focus navigation ---------------------------------------------------

/// Buttons are visited in order of their menu index; buttons that share an
/// index keep the order in which they are listed.
pub open spec fn before(order: Seq<u32>, a: int, b: int) -> bool {
    order[a] < order[b] || (order[a] == order[b] && a < b)
}

/// `k` is the first, in navigation order, of the buttons marked in `mask`.
pub open spec fn is_first_in(order: Seq<u32>, mask: Seq<bool>, k: int) -> bool {
    &&& 0 <= k < order.len()
    &&& mask[k]
    &&& forall|j: int| 0 <= j < order.len() && j != k && mask[j] ==> before(order, k, j)
}

/// `k` is the last, in navigation order, of the buttons marked in `mask`.
pub open spec fn is_last_in(order: Seq<u32>, mask: Seq<bool>, k: int) -> bool {
    &&& 0 <= k < order.len()
    &&& mask[k]
    &&& forall|j: int| 0 <= j < order.len() && j != k && mask[j] ==> before(order, j, k)
}

/// Every button.
pub open spec fn all_mask(len: nat) -> Seq<bool> {
    Seq::new(len, |j: int| true)
}

/// The buttons after `c` in navigation order.
pub open spec fn after_mask(order: Seq<u32>, c: int) -> Seq<bool> {
    Seq::new(order.len(), |j: int| before(order, c, j))
}

/// The buttons before `c` in navigation order.
pub open spec fn before_mask(order: Seq<u32>, c: int) -> Seq<bool> {
    Seq::new(order.len(), |j: int| before(order, j, c))
}

/// Some button is marked.
pub open spec fn any_marked(mask: Seq<bool>) -> bool {
    exists|j: int| 0 <= j < mask.len() && mask[j]
}

/// The button that holds focus for navigation: the first focused one, or
/// the first button when none is focused.
pub open spec fn is_focus_of(order: Seq<u32>, focused: Seq<bool>, c: int) -> bool {
    if any_marked(focused) {
        is_first_in(order, focused, c)
    } else {
        is_first_in(order, all_mask(order.len()), c)
    }
}

/// The button after `c` in navigation order, wrapping to the first.
pub open spec fn is_next_of(order: Seq<u32>, c: int, n: int) -> bool {
    if any_marked(after_mask(order, c)) {
        is_first_in(order, after_mask(order, c), n)
    } else {
        is_first_in(order, all_mask(order.len()), n)
    }
}

/// The button before `c` in navigation order, wrapping to the last.
pub open spec fn is_prev_of(order: Seq<u32>, c: int, p: int) -> bool {
    if any_marked(before_mask(order, c)) {
        is_last_in(order, before_mask(order, c), p)
    } else {
        is_last_in(order, all_mask(order.len()), p)
    }
}

/// The first marked button in navigation order, if any is marked.
fn first_in(order: &Vec<u32>, mask: &Vec<bool>) -> (r: Option<usize>)
    requires
        order.len() == mask.len(),
    ensures
        match r {
            Some(k) => is_first_in(order@, mask@, k as int),
            None => !any_marked(mask@),
        },
{
    let mut best: Option<usize> = None;
    let mut j: usize = 0;
    while j < order.len()
        invariant
            j <= order.len(),
            order.len() == mask.len(),
            match best {
                Some(k) => k < j && mask@[k as int] && forall|i: int|
                    0 <= i < j && i != k && mask@[i] ==> before(order@, k as int, i),
                None => forall|i: int| 0 <= i < j ==> !mask@[i],
            },
        decreases order.len() - j,
    {
        if mask[j] {
            match best {
                None => {
                    best = Some(j);
                },
                Some(k) => {
                    if order[j] < order[k] {
                        best = Some(j);
                    }
                },
            }
        }
        j = j + 1;
    }
    best
}

/// The last marked button in navigation order, if any is marked.
fn last_in(order: &Vec<u32>, mask: &Vec<bool>) -> (r: Option<usize>)
    requires
        order.len() == mask.len(),
    ensures
        match r {
            Some(k) => is_last_in(order@, mask@, k as int),
            None => !any_marked(mask@),
        },
{
    let mut best: Option<usize> = None;
    let mut j: usize = 0;
    while j < order.len()
        invariant
            j <= order.len(),
            order.len() == mask.len(),
            match best {
                Some(k) => k < j && mask@[k as int] && forall|i: int|
                    0 <= i < j && i != k && mask@[i] ==> before(order@, i, k as int),
                None => forall|i: int| 0 <= i < j ==> !mask@[i],
            },
        decreases order.len() - j,
    {
        if mask[j] {
            match best {
                None => {
                    best = Some(j);
                },
                Some(k) => {
                    if order[k] <= order[j] {
                        best = Some(j);
                    }
                },
            }
        }
        j = j + 1;
    }
    best
}

/// A mask marking every button.
fn all_buttons(len: usize) -> (r: Vec<bool>)
    ensures
        r@ == all_mask(len as nat),
{
    let mut r: Vec<bool> = Vec::new();
    let mut j: usize = 0;
    while j < len
        invariant
            j <= len,
            r.len() == j,
            forall|i: int| 0 <= i < j ==> r@[i],
        decreases len - j,
    {
        r.push(true);
        j = j + 1;
    }
    assert(r@ =~= all_mask(len as nat));
    r
}

/// A mask marking the buttons after `c` (`after` set) or before `c`.
fn relative_to(order: &Vec<u32>, c: usize, after: bool) -> (r: Vec<bool>)
    requires
        c < order.len(),
    ensures
        after ==> r@ == after_mask(order@, c as int),
        !after ==> r@ == before_mask(order@, c as int),
{
    let mut r: Vec<bool> = Vec::new();
    let mut j: usize = 0;
    while j < order.len()
        invariant
            j <= order.len(),
            c < order.len(),
            r.len() == j,
            forall|i: int|
                0 <= i < j ==> r@[i] == (if after {
                    before(order@, c as int, i)
                } else {
                    before(order@, i, c as int)
                }),
        decreases order.len() - j,
    {
        let b = if after {
            order[c] < order[j] || (order[c] == order[j] && c < j)
        } else {
            order[j] < order[c] || (order[j] == order[c] && j < c)
        };
        r.push(b);
        j = j + 1;
    }
    if after {
        assert(r@ =~= after_mask(order@, c as int));
    } else {
        assert(r@ =~= before_mask(order@, c as int));
    }
    r
}

/// The button that holds focus: the first focused one in navigation order,
/// or the first button when none is focused. `None` when there are no
/// buttons.
pub fn current_focus(order: &Vec<u32>, focused: &Vec<bool>) -> (r: Option<usize>)
    requires
        order.len() == focused.len(),
    ensures
        r is None <==> order.len() == 0,
        r matches Some(c) ==> is_focus_of(order@, focused@, c as int),
{
    match first_in(order, focused) {
        Some(c) => Some(c),
        None => {
            let all = all_buttons(order.len());
            if order.len() > 0 {
                assert(all@[0]);
            }
            first_in(order, &all)
        },
    }
}

/// The navigation step the controls ask for this frame: `Some(true)` to move
/// down (arrow down, Tab, or the pad's down), `Some(false)` to move up (arrow
/// up, Shift+Tab, or the pad's up), `None` when neither; down wins when both
/// are asked.
pub fn nav_intent(
    arrow_down: bool,
    arrow_up: bool,
    tab: bool,
    shift: bool,
    pad_down: bool,
    pad_up: bool,
) -> (r: Option<bool>)
    ensures
        ({
            let down = arrow_down || (tab && !shift) || pad_down;
            let up = arrow_up || (tab && shift) || pad_up;
            r == (if down { Some(true) } else if up { Some(false) } else { None })
        }),
{
    let down = arrow_down || (tab && !shift) || pad_down;
    let up = arrow_up || (tab && shift) || pad_up;
    if down {
        Some(true)
    } else if up {
        Some(false)
    } else {
        None
    }
}

/// The button to focus when none holds focus (right after a menu spawns):
/// the first in navigation order. `None` when a button already holds focus
/// or there are no buttons.
pub fn default_focus(order: &Vec<u32>, focused: &Vec<bool>) -> (r: Option<usize>)
    requires
        order.len() == focused.len(),
    ensures
        any_marked(focused@) ==> r is None,
        !any_marked(focused@) ==> match r {
            Some(k) => is_first_in(order@, all_mask(order.len() as nat), k as int),
            None => order.len() == 0,
        },
{
    match first_in(order, focused) {
        Some(_) => None,
        None => {
            let all = all_buttons(order.len());
            if order.len() > 0 {
                assert(all@[0]);
            }
            first_in(order, &all)
        },
    }
}

/// One step of keyboard or gamepad navigation among a menu's buttons, given
/// each button's menu index and whether it holds focus: down moves focus to
/// the next button in order, wrapping to the first, up to the previous one,
/// wrapping to the last. Returns the button that held focus and the one that
/// gets it (the same one when there is a single button); `None` when the
/// menu has no buttons.
pub fn navigate(order: &Vec<u32>, focused: &Vec<bool>, down: bool) -> (r: Option<(usize, usize)>)
    requires
        order.len() == focused.len(),
    ensures
        r is None <==> order.len() == 0,
        r matches Some((c, n)) ==> {
            &&& is_focus_of(order@, focused@, c as int)
            &&& down ==> is_next_of(order@, c as int, n as int)
            &&& !down ==> is_prev_of(order@, c as int, n as int)
        },
{
    let c = match current_focus(order, focused) {
        Some(c) => c,
        None => {
            return None;
        },
    };
    let all = all_buttons(order.len());
    let mask = relative_to(order, c, down);
    let n = if down {
        match first_in(order, &mask) {
            Some(n) => n,
            None => match first_in(order, &all) {
                Some(n) => n,
                None => c,
            },
        }
    } else {
        match last_in(order, &mask) {
            Some(n) => n,
            None => match last_in(order, &all) {
                Some(n) => n,
                None => c,
            },
        }
    };
    Some((c, n))
}

/// Moving focus down and then up lands on the button it started from.
pub proof fn law_down_then_up_returns(order: Seq<u32>, c: int, n: int)
    requires
        0 <= c < order.len(),
        is_next_of(order, c, n),
    ensures
        is_prev_of(order, n, c),
{
    let len = order.len();
    if any_marked(after_mask(order, c)) {
        assert(is_first_in(order, after_mask(order, c), n));
        assert(before_mask(order, n)[c]);
        assert forall|j: int| 0 <= j < len && j != c && before_mask(order, n)[j] implies before(order, j, c) by {
            if !before(order, j, c) {
                assert(after_mask(order, c)[j]);
            }
        }
    } else {
        assert(is_first_in(order, all_mask(len), n));
        assert forall|j: int| 0 <= j < len implies !before_mask(order, n)[j] by {
            if j != n {
                assert(all_mask(len)[j]);
            }
        }
        assert forall|j: int| 0 <= j < len && j != c && all_mask(len)[j] implies before(order, j, c) by {
            if !before(order, j, c) {
                assert(after_mask(order, c)[j]);
            }
        }
        assert(all_mask(len)[c]);
    }
}

/// Moving focus up and then down lands on the button it started from.
pub proof fn law_up_then_down_returns(order: Seq<u32>, c: int, p: int)
    requires
        0 <= c < order.len(),
        is_prev_of(order, c, p),
    ensures
        is_next_of(order, p, c),
{
    let len = order.len();
    if any_marked(before_mask(order, c)) {
        assert(is_last_in(order, before_mask(order, c), p));
        assert(after_mask(order, p)[c]);
        assert forall|j: int| 0 <= j < len && j != c && after_mask(order, p)[j] implies before(order, c, j) by {
            if !before(order, c, j) {
                assert(before_mask(order, c)[j]);
            }
        }
    } else {
        assert(is_last_in(order, all_mask(len), p));
        assert forall|j: int| 0 <= j < len implies !after_mask(order, p)[j] by {
            if j != p {
                assert(all_mask(len)[j]);
            }
        }
        assert forall|j: int| 0 <= j < len && j != c && all_mask(len)[j] implies before(order, c, j) by {
            if !before(order, c, j) {
                assert(before_mask(order, c)[j]);
            }
        }
        assert(all_mask(len)[c]);
    }
}


/// Only `Exit` quits, and it changes no screen; only `Play` and
/// `Play Again` load a level, and always the first; only `Exit to Menu`
/// unloads the level; every other button moves to exactly one screen.
pub proof fn law_menu_outcomes(action: MenuAction)
    ensures
        outcome_of(action).exit <==> action == MenuAction::Exit,
        outcome_of(action).exit ==> outcome_of(action).next_state is None,
        !outcome_of(action).exit ==> outcome_of(action).next_state is Some,
        outcome_of(action).load_level is Some <==> (action == MenuAction::Play || action == MenuAction::PlayAgain),
        outcome_of(action).load_level matches Some(level) ==> level == 0
            && outcome_of(action).next_state == Some(AppState::Playing),
        outcome_of(action).unload_level <==> action == MenuAction::ExitToMenu,
        outcome_of(action).next_state == Some(AppState::MainMenu) <==> (action == MenuAction::Back
            || action == MenuAction::ExitToMenu || action is SetLanguage),
{
}

} // verus!

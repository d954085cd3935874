//! UI message catalog and the selectable display [`Language`].
use vstd::prelude::*;

verus! {

/// The game's selectable display language.
#[derive(Debug, Clone, Copy, PartialEq, Eq, Structural)]
pub enum Language {
    English,
    Ukrainian,
}

impl Default for Language {
    fn default() -> (r: Self)
        ensures
            r == Language::English,
    {
        Language::English
    }
}

/// The language's own name, written in that language.
pub open spec fn native_name_of(lang: Language) -> Seq<char> {
    match lang {
        Language::English => "English"@,
        Language::Ukrainian => "Українська"@,
    }
}

impl Language {
    /// The language's own name, in its own language — the label of the
    /// button that selects it.
    pub fn native_name(self) -> (r: &'static str)
        ensures
            r@ == native_name_of(self),
    {
        match self {
            Language::English => "English",
            Language::Ukrainian => "Українська",
        }
    }
}

/// A localizable piece of UI text, one variant per distinct string.
#[derive(Debug, Clone, Copy, PartialEq, Eq, Structural)]
pub enum Msg {
    Title,
    Play,
    About,
    Options,
    Exit,
    Back,
    Resume,
    ExitToMenu,
    PlayAgain,
    PauseMenu,
    GameOver,
    LanguageLabel,
    ControlsHelp,
    MenuHint,
    AboutBody,
}

/// The copy of `msg` in `lang`.
pub open spec fn text_of(msg: Msg, lang: Language) -> Seq<char> {
    match (msg, lang) {
        (Msg::Title, Language::English) => "Edgard in Kimeria"@,
        (Msg::Title, Language::Ukrainian) => "Едгард у Кімерії"@,
        (Msg::Play, Language::English) => "Play"@,
        (Msg::Play, Language::Ukrainian) => "Грати"@,
        (Msg::About, Language::English) => "About"@,
        (Msg::About, Language::Ukrainian) => "Про гру"@,
        (Msg::Options, Language::English) => "Options"@,
        (Msg::Options, Language::Ukrainian) => "Налаштування"@,
        (Msg::Exit, Language::English) => "Exit"@,
        (Msg::Exit, Language::Ukrainian) => "Вихід"@,
        (Msg::Back, Language::English) => "Back"@,
        (Msg::Back, Language::Ukrainian) => "Назад"@,
        (Msg::Resume, Language::English) => "Resume"@,
        (Msg::Resume, Language::Ukrainian) => "Продовжити"@,
        (Msg::ExitToMenu, Language::English) => "Exit to Menu"@,
        (Msg::ExitToMenu, Language::Ukrainian) => "Вийти в меню"@,
        (Msg::PlayAgain, Language::English) => "Play Again"@,
        (Msg::PlayAgain, Language::Ukrainian) => "Грати знову"@,
        (Msg::PauseMenu, Language::English) => "Pause Menu"@,
        (Msg::PauseMenu, Language::Ukrainian) => "Меню паузи"@,
        (Msg::GameOver, Language::English) => "Game Over"@,
        (Msg::GameOver, Language::Ukrainian) => "Гру закінчено"@,
        (Msg::LanguageLabel, Language::English) => "Language"@,
        (Msg::LanguageLabel, Language::Ukrainian) => "Мова"@,
        (Msg::ControlsHelp, Language::English) => "Use WASD or Arrow Keys for movement.\nJ/Z to jump. K/X to attack. L/C to interact.\nCollect as many stars as you can and avoid enemies!"@,
        (Msg::ControlsHelp, Language::Ukrainian) => "Використовуйте WASD або стрілки для руху.\nJ/Z — стрибок. K/X — атака. L/C — взаємодія.\nЗберіть якомога більше зірок і уникайте ворогів!"@,
        (Msg::MenuHint, Language::English) => "Arrows/Tab to move - Enter/Space/A to confirm - Esc/B to go back"@,
        (Msg::MenuHint, Language::Ukrainian) => "Стрілки/Tab — рух - Enter/Пробіл/A — підтвердити - Esc/B — назад"@,
        (Msg::AboutBody, Language::English) => "Edgard in Kimeria\n\nUse WASD or Arrow Keys for movement.\nJ/Z to jump. K/X to attack. L/C to interact.\nEscape to pause.\nCollect as many stars as you can and avoid enemies!"@,
        (Msg::AboutBody, Language::Ukrainian) => "Едгард у Кімерії\n\nВикористовуйте WASD або стрілки для руху.\nJ/Z — стрибок. K/X — атака. L/C — взаємодія.\nEscape — пауза.\nЗберіть якомога більше зірок і уникайте ворогів!"@,
    }
}

impl Msg {
    /// This message's text in `lang`.
    pub fn t(self, lang: Language) -> (r: &'static str)
        ensures
            r@ == text_of(self, lang),
    {
        match (self, lang) {
            (Msg::Title, Language::English) => "Edgard in Kimeria",
            (Msg::Title, Language::Ukrainian) => "Едгард у Кімерії",
            (Msg::Play, Language::English) => "Play",
            (Msg::Play, Language::Ukrainian) => "Грати",
            (Msg::About, Language::English) => "About",
            (Msg::About, Language::Ukrainian) => "Про гру",
            (Msg::Options, Language::English) => "Options",
            (Msg::Options, Language::Ukrainian) => "Налаштування",
            (Msg::Exit, Language::English) => "Exit",
            (Msg::Exit, Language::Ukrainian) => "Вихід",
            (Msg::Back, Language::English) => "Back",
            (Msg::Back, Language::Ukrainian) => "Назад",
            (Msg::Resume, Language::English) => "Resume",
            (Msg::Resume, Language::Ukrainian) => "Продовжити",
            (Msg::ExitToMenu, Language::English) => "Exit to Menu",
            (Msg::ExitToMenu, Language::Ukrainian) => "Вийти в меню",
            (Msg::PlayAgain, Language::English) => "Play Again",
            (Msg::PlayAgain, Language::Ukrainian) => "Грати знову",
            (Msg::PauseMenu, Language::English) => "Pause Menu",
            (Msg::PauseMenu, Language::Ukrainian) => "Меню паузи",
            (Msg::GameOver, Language::English) => "Game Over",
            (Msg::GameOver, Language::Ukrainian) => "Гру закінчено",
            (Msg::LanguageLabel, Language::English) => "Language",
            (Msg::LanguageLabel, Language::Ukrainian) => "Мова",
            (Msg::ControlsHelp, Language::English) => "Use WASD or Arrow Keys for movement.\nJ/Z to jump. K/X to attack. L/C to interact.\nCollect as many stars as you can and avoid enemies!",
            (Msg::ControlsHelp, Language::Ukrainian) => "Використовуйте WASD або стрілки для руху.\nJ/Z — стрибок. K/X — атака. L/C — взаємодія.\nЗберіть якомога більше зірок і уникайте ворогів!",
            (Msg::MenuHint, Language::English) => "Arrows/Tab to move - Enter/Space/A to confirm - Esc/B to go back",
            (Msg::MenuHint, Language::Ukrainian) => "Стрілки/Tab — рух - Enter/Пробіл/A — підтвердити - Esc/B — назад",
            (Msg::AboutBody, Language::English) => "Edgard in Kimeria\n\nUse WASD or Arrow Keys for movement.\nJ/Z to jump. K/X to attack. L/C to interact.\nEscape to pause.\nCollect as many stars as you can and avoid enemies!",
            (Msg::AboutBody, Language::Ukrainian) => "Едгард у Кімерії\n\nВикористовуйте WASD або стрілки для руху.\nJ/Z — стрибок. K/X — атака. L/C — взаємодія.\nEscape — пауза.\nЗберіть якомога більше зірок і уникайте ворогів!",
        }
    }
}

/// Every message has text in every language.
pub proof fn law_every_message_has_text(msg: Msg, lang: Language)
    ensures
        text_of(msg, lang).len() > 0,
        native_name_of(lang).len() > 0,
{
    reveal_strlit("English");
    reveal_strlit("Українська");
    reveal_strlit("Edgard in Kimeria");
    reveal_strlit("Едгард у Кімерії");
    reveal_strlit("Play");
    reveal_strlit("Грати");
    reveal_strlit("About");
    reveal_strlit("Про гру");
    reveal_strlit("Options");
    reveal_strlit("Налаштування");
    reveal_strlit("Exit");
    reveal_strlit("Вихід");
    reveal_strlit("Back");
    reveal_strlit("Назад");
    reveal_strlit("Resume");
    reveal_strlit("Продовжити");
    reveal_strlit("Exit to Menu");
    reveal_strlit("Вийти в меню");
    reveal_strlit("Play Again");
    reveal_strlit("Грати знову");
    reveal_strlit("Pause Menu");
    reveal_strlit("Меню паузи");
    reveal_strlit("Game Over");
    reveal_strlit("Гру закінчено");
    reveal_strlit("Language");
    reveal_strlit("Мова");
    reveal_strlit("Use WASD or Arrow Keys for movement.\nJ/Z to jump. K/X to attack. L/C to interact.\nCollect as many stars as you can and avoid enemies!");
    reveal_strlit("Використовуйте WASD або стрілки для руху.\nJ/Z — стрибок. K/X — атака. L/C — взаємодія.\nЗберіть якомога більше зірок і уникайте ворогів!");
    reveal_strlit("Arrows/Tab to move - Enter/Space/A to confirm - Esc/B to go back");
    reveal_strlit("Стрілки/Tab — рух - Enter/Пробіл/A — підтвердити - Esc/B — назад");
    reveal_strlit("Edgard in Kimeria\n\nUse WASD or Arrow Keys for movement.\nJ/Z to jump. K/X to attack. L/C to interact.\nEscape to pause.\nCollect as many stars as you can and avoid enemies!");
    reveal_strlit("Едгард у Кімерії\n\nВикористовуйте WASD або стрілки для руху.\nJ/Z — стрибок. K/X — атака. L/C — взаємодія.\nEscape — пауза.\nЗберіть якомога більше зірок і уникайте ворогів!");
}

/// No two messages share a text: in either language, each message's copy
/// differs from every other message's copy, so every user-facing string
/// stands in the catalog exactly once per language.
pub proof fn law_message_texts_are_distinct(m1: Msg, m2: Msg, lang: Language)
    requires
        m1 != m2,
    ensures
        text_of(m1, lang) != text_of(m2, lang),
{
    match lang {
        Language::English => {
            reveal_strlit("Edgard in Kimeria");
            reveal_strlit("Play");
            reveal_strlit("About");
            reveal_strlit("Options");
            reveal_strlit("Exit");
            reveal_strlit("Back");
            reveal_strlit("Resume");
            reveal_strlit("Exit to Menu");
            reveal_strlit("Play Again");
            reveal_strlit("Pause Menu");
            reveal_strlit("Game Over");
            reveal_strlit("Language");
            reveal_strlit("Use WASD or Arrow Keys for movement.\nJ/Z to jump. K/X to attack. L/C to interact.\nCollect as many stars as you can and avoid enemies!");
            reveal_strlit("Arrows/Tab to move - Enter/Space/A to confirm - Esc/B to go back");
            reveal_strlit("Edgard in Kimeria\n\nUse WASD or Arrow Keys for movement.\nJ/Z to jump. K/X to attack. L/C to interact.\nEscape to pause.\nCollect as many stars as you can and avoid enemies!");
            assert("Edgard in Kimeria"@.len() == 17);
            assert("Play"@.len() == 4);
            assert("About"@.len() == 5);
            assert("Options"@.len() == 7);
            assert("Exit"@.len() == 4);
            assert("Back"@.len() == 4);
            assert("Resume"@.len() == 6);
            assert("Exit to Menu"@.len() == 12);
            assert("Play Again"@.len() == 10);
            assert("Pause Menu"@.len() == 10);
            assert("Game Over"@.len() == 9);
            assert("Language"@.len() == 8);
            assert("Use WASD or Arrow Keys for movement.\nJ/Z to jump. K/X to attack. L/C to interact.\nCollect as many stars as you can and avoid enemies!"@.len() == 133);
            assert("Arrows/Tab to move - Enter/Space/A to confirm - Esc/B to go back"@.len() == 64);
            assert("Edgard in Kimeria\n\nUse WASD or Arrow Keys for movement.\nJ/Z to jump. K/X to attack. L/C to interact.\nEscape to pause.\nCollect as many stars as you can and avoid enemies!"@.len() == 169);
            assert("Play"@[0] != "Exit"@[0]);
            assert("Play"@[0] != "Back"@[0]);
            assert("Exit"@[0] != "Back"@[0]);
            assert("Play Again"@[1] != "Pause Menu"@[1]);
        },
        Language::Ukrainian => {
            reveal_strlit("Едгард у Кімерії");
            reveal_strlit("Грати");
            reveal_strlit("Про гру");
            reveal_strlit("Налаштування");
            reveal_strlit("Вихід");
            reveal_strlit("Назад");
            reveal_strlit("Продовжити");
            reveal_strlit("Вийти в меню");
            reveal_strlit("Грати знову");
            reveal_strlit("Меню паузи");
            reveal_strlit("Гру закінчено");
            reveal_strlit("Мова");
            reveal_strlit("Використовуйте WASD або стрілки для руху.\nJ/Z — стрибок. K/X — атака. L/C — взаємодія.\nЗберіть якомога більше зірок і уникайте ворогів!");
            reveal_strlit("Стрілки/Tab — рух - Enter/Пробіл/A — підтвердити - Esc/B — назад");
            reveal_strlit("Едгард у Кімерії\n\nВикористовуйте WASD або стрілки для руху.\nJ/Z — стрибок. K/X — атака. L/C — взаємодія.\nEscape — пауза.\nЗберіть якомога більше зірок і уникайте ворогів!");
            assert("Едгард у Кімерії"@.len() == 16);
            assert("Грати"@.len() == 5);
            assert("Про гру"@.len() == 7);
            assert("Налаштування"@.len() == 12);
            assert("Вихід"@.len() == 5);
            assert("Назад"@.len() == 5);
            assert("Продовжити"@.len() == 10);
            assert("Вийти в меню"@.len() == 12);
            assert("Грати знову"@.len() == 11);
            assert("Меню паузи"@.len() == 10);
            assert("Гру закінчено"@.len() == 13);
            assert("Мова"@.len() == 4);
            assert("Використовуйте WASD або стрілки для руху.\nJ/Z — стрибок. K/X — атака. L/C — взаємодія.\nЗберіть якомога більше зірок і уникайте ворогів!"@.len() == 135);
            assert("Стрілки/Tab — рух - Enter/Пробіл/A — підтвердити - Esc/B — назад"@.len() == 64);
            assert("Едгард у Кімерії\n\nВикористовуйте WASD або стрілки для руху.\nJ/Z — стрибок. K/X — атака. L/C — взаємодія.\nEscape — пауза.\nЗберіть якомога більше зірок і уникайте ворогів!"@.len() == 169);
            assert("Грати"@[0] != "Вихід"@[0]);
            assert("Грати"@[0] != "Назад"@[0]);
            assert("Налаштування"@[0] != "Вийти в меню"@[0]);
            assert("Вихід"@[0] != "Назад"@[0]);
            assert("Продовжити"@[0] != "Меню паузи"@[0]);
        },
    }
}

/// The lines of the controls help in `lang`, top to bottom.
pub open spec fn controls_lines(lang: Language) -> Seq<Seq<char>> {
    match lang {
        Language::English => seq!["Use WASD or Arrow Keys for movement."@, "J/Z to jump. K/X to attack. L/C to interact."@, "Collect as many stars as you can and avoid enemies!"@],
        Language::Ukrainian => seq!["Використовуйте WASD або стрілки для руху."@, "J/Z — стрибок. K/X — атака. L/C — взаємодія."@, "Зберіть якомога більше зірок і уникайте ворогів!"@],
    }
}

/// `line` stands in `text` as a whole line: it starts at the start of `text`
/// or right after a line break, and ends at the end of `text` or right before
/// one.
pub open spec fn is_line_of(line: Seq<char>, text: Seq<char>) -> bool {
    exists|start: int|
        #![trigger text.subrange(start, start + line.len())]
        0 <= start && start + line.len() <= text.len() && text.subrange(start, start + line.len())
            == line && (start == 0 || text[start - 1] == '\n') && (start + line.len() == text.len()
            || text[start + line.len()] == '\n')
}

/// The About page opens with the game's title and a blank line, and repeats
/// each line of the controls help as a whole line of its own.
pub proof fn law_about_page_repeats_title_and_controls(lang: Language)
    ensures
        text_of(Msg::AboutBody, lang).len() >= text_of(Msg::Title, lang).len() + 2,
        text_of(Msg::AboutBody, lang).take(text_of(Msg::Title, lang).len() + 2int) == text_of(
            Msg::Title,
            lang,
        ) + "\n\n"@,
        controls_lines(lang).len() == 3,
        text_of(Msg::ControlsHelp, lang) == controls_lines(lang)[0] + "\n"@ + controls_lines(lang)[1]
            + "\n"@ + controls_lines(lang)[2],
        forall|i: int, j: int|
            0 <= i < 3 && 0 <= j < controls_lines(lang)[i].len() ==> controls_lines(lang)[i][j]
                != '\n',
        forall|i: int|
            0 <= i < 3 ==> is_line_of(#[trigger] controls_lines(lang)[i], text_of(Msg::AboutBody, lang)),
{
    match lang {
        Language::English => {
            let title = "Edgard in Kimeria"@;
            let help = "Use WASD or Arrow Keys for movement.\nJ/Z to jump. K/X to attack. L/C to interact.\nCollect as many stars as you can and avoid enemies!"@;
            let about = "Edgard in Kimeria\n\nUse WASD or Arrow Keys for movement.\nJ/Z to jump. K/X to attack. L/C to interact.\nEscape to pause.\nCollect as many stars as you can and avoid enemies!"@;
            let first = "Use WASD or Arrow Keys for movement."@;
            let second = "J/Z to jump. K/X to attack. L/C to interact."@;
            let third = "Collect as many stars as you can and avoid enemies!"@;
            reveal_strlit("Edgard in Kimeria");
            reveal_strlit("Use WASD or Arrow Keys for movement.\nJ/Z to jump. K/X to attack. L/C to interact.\nCollect as many stars as you can and avoid enemies!");
            reveal_strlit("Edgard in Kimeria\n\nUse WASD or Arrow Keys for movement.\nJ/Z to jump. K/X to attack. L/C to interact.\nEscape to pause.\nCollect as many stars as you can and avoid enemies!");
            reveal_strlit("Use WASD or Arrow Keys for movement.");
            reveal_strlit("J/Z to jump. K/X to attack. L/C to interact.");
            reveal_strlit("Collect as many stars as you can and avoid enemies!");
            reveal_strlit("\n");
            reveal_strlit("\n\n");
            assert(about.take(title.len() + 2int) =~= title + "\n\n"@);
            assert(help =~= first + "\n"@ + second + "\n"@ + third);
            assert(is_line_of(first, about)) by {
                assert(about.subrange(19, 19int + first.len()) =~= first);
            }
            assert(is_line_of(second, about)) by {
                assert(about.subrange(56, 56int + second.len()) =~= second);
            }
            assert(is_line_of(third, about)) by {
                assert(about.subrange(118, 118int + third.len()) =~= third);
            }
        },
        Language::Ukrainian => {
            let title = "Едгард у Кімерії"@;
            let help = "Використовуйте WASD або стрілки для руху.\nJ/Z — стрибок. K/X — атака. L/C — взаємодія.\nЗберіть якомога більше зірок і уникайте ворогів!"@;
            let about = "Едгард у Кімерії\n\nВикористовуйте WASD або стрілки для руху.\nJ/Z — стрибок. K/X — атака. L/C — взаємодія.\nEscape — пауза.\nЗберіть якомога більше зірок і уникайте ворогів!"@;
            let first = "Використовуйте WASD або стрілки для руху."@;
            let second = "J/Z — стрибок. K/X — атака. L/C — взаємодія."@;
            let third = "Зберіть якомога більше зірок і уникайте ворогів!"@;
            reveal_strlit("Едгард у Кімерії");
            reveal_strlit("Використовуйте WASD або стрілки для руху.\nJ/Z — стрибок. K/X — атака. L/C — взаємодія.\nЗберіть якомога більше зірок і уникайте ворогів!");
            reveal_strlit("Едгард у Кімерії\n\nВикористовуйте WASD або стрілки для руху.\nJ/Z — стрибок. K/X — атака. L/C — взаємодія.\nEscape — пауза.\nЗберіть якомога більше зірок і уникайте ворогів!");
            reveal_strlit("Використовуйте WASD або стрілки для руху.");
            reveal_strlit("J/Z — стрибок. K/X — атака. L/C — взаємодія.");
            reveal_strlit("Зберіть якомога більше зірок і уникайте ворогів!");
            reveal_strlit("\n");
            reveal_strlit("\n\n");
            assert(about.take(title.len() + 2int) =~= title + "\n\n"@);
            assert(help =~= first + "\n"@ + second + "\n"@ + third);
            assert(is_line_of(first, about)) by {
                assert(about.subrange(18, 18int + first.len()) =~= first);
            }
            assert(is_line_of(second, about)) by {
                assert(about.subrange(60, 60int + second.len()) =~= second);
            }
            assert(is_line_of(third, about)) by {
                assert(about.subrange(121, 121int + third.len()) =~= third);
            }
        },
    }
}

} // verus!

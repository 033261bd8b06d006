//! The talk prompt and the dialogue box: when they show, and how the
//! dialogue's text is revealed.
//!
//! The dialogue reveals its text one character per tick and breaks the line
//! when the line, as rendered, gets too wide. Measuring a rendered line is
//! the text renderer's work: the caller asks `pending_line` for the line to
//! measure and hands the width to `reveal_next`.

use vstd::prelude::*;
use vstd::string::*;
use crate::geometry::{Position, Camera, clamp_i32, shift, shift_back};

verus! {

/// What the prompt says.
pub const PROMPT_TEXT: &'static str = "Press T to talk.";

/// What the dialogue says.
pub const GREETING_TEXT: &'static str =
    "Hi! Welcome to HYPOTERRA, the land that may never see the light of day. Would you like to learn of the HYPOTERRA prophecy?";

/// A line of the dialogue is broken once it is rendered wider than this.
pub const WRAP_WIDTH: u32 = 840;

/// The prompt's corner lies this far left of the camera's centre.
pub const PROMPT_LEFT: i32 = 590;

/// The prompt's corner lies this far below the camera's centre.
pub const PROMPT_DOWN: i32 = 360;

/// The dialogue box's corner lies this far left of the camera's centre.
pub const DIALOGUE_LEFT: i32 = 440;

/// The dialogue box's corner lies this far below the camera's centre.
pub const DIALOGUE_DOWN: i32 = 260;

/// The prompt that tells the player it can talk.
#[allow(non_camel_case_types)]
#[derive(Clone, Debug, PartialEq, Eq)]
pub struct Help_Menu {
    pub position: Position,
    pub visible: bool,
    pub text: String,
}

/// The dialogue box. `output_text` is the part of `text` revealed so far,
/// with the line breaks put in; `current_line` is what was revealed since
/// the last line break, after the mark every line starts with; `revealed`
/// counts the characters of `text` that were revealed.
#[derive(Clone, Debug, PartialEq, Eq)]
pub struct DialogueBox {
    pub position: Position,
    pub visible: bool,
    pub text: String,
    pub output_text: String,
    pub text_wrap_finished: bool,
    pub current_line: String,
    pub revealed: usize,
}

/// A `Help_Menu` as a mathematical value.
pub struct HelpMenuModel {
    pub position: Position,
    pub visible: bool,
    pub text: Seq<char>,
}

/// A `DialogueBox` as a mathematical value.
pub struct DialogueModel {
    pub position: Position,
    pub visible: bool,
    pub text: Seq<char>,
    pub output_text: Seq<char>,
    pub text_wrap_finished: bool,
    pub current_line: Seq<char>,
    pub revealed: nat,
}

impl View for Help_Menu {
    type V = HelpMenuModel;

    open spec fn view(&self) -> HelpMenuModel {
        HelpMenuModel { position: self.position, visible: self.visible, text: self.text@ }
    }
}

impl View for DialogueBox {
    type V = DialogueModel;

    open spec fn view(&self) -> DialogueModel {
        DialogueModel {
            position: self.position,
            visible: self.visible,
            text: self.text@,
            output_text: self.output_text@,
            text_wrap_finished: self.text_wrap_finished,
            current_line: self.current_line@,
            revealed: self.revealed as nat,
        }
    }
}

/// Where the talk between the player and the other character stands.
#[derive(Clone, Copy, Debug, PartialEq, Eq, Structural)]
pub enum InteractionState {
    Idle,
    PromptVisible,
    DialogueActive,
}

/// The mark that every line of the dialogue starts with when it is measured.
pub open spec fn line_start() -> Seq<char> {
    seq![':']
}

/// Whether a tick reveals a character: the dialogue shows, is not finished,
/// and has text left.
pub open spec fn reveal_due(dialogue: DialogueModel) -> bool {
    dialogue.visible && !dialogue.text_wrap_finished && dialogue.revealed < dialogue.text.len()
}

/// The line that the next reveal would complete, if one is due: the current
/// line with the next character of the text.
pub open spec fn line_to_measure(dialogue: DialogueModel) -> Option<Seq<char>> {
    if reveal_due(dialogue) {
        Some(dialogue.current_line.push(dialogue.text[dialogue.revealed as int]))
    } else {
        None
    }
}

/// A line handed out for measuring, as a mathematical value.
pub open spec fn line_view(line: Option<String>) -> Option<Seq<char>> {
    match line {
        Some(l) => Some(l@),
        None => None,
    }
}

/// The dialogue after one tick of the reveal, where `line_width` is the
/// rendered width of `line_to_measure`.
///
/// If a reveal is due, the next character of the text goes to the end of the
/// output and of the current line. If the line is then wider than
/// `WRAP_WIDTH`, a line break follows the character in the output and the
/// current line starts again. The dialogue is finished when the last
/// character of the text was revealed. If no reveal is due, nothing changes.
pub open spec fn dialogue_after_reveal(dialogue: DialogueModel, line_width: int) -> DialogueModel {
    if reveal_due(dialogue) {
        let c = dialogue.text[dialogue.revealed as int];
        let wraps = line_width > WRAP_WIDTH;
        DialogueModel {
            output_text: if wraps {
                dialogue.output_text.push(c).push('\n')
            } else {
                dialogue.output_text.push(c)
            },
            current_line: if wraps {
                line_start()
            } else {
                dialogue.current_line.push(c)
            },
            revealed: dialogue.revealed + 1,
            text_wrap_finished: dialogue.revealed + 1 == dialogue.text.len(),
            ..dialogue
        }
    } else {
        dialogue
    }
}

/// Where the talk stands, as the two panels show it.
pub open spec fn interaction_state(help_menu: HelpMenuModel, dialogue: DialogueModel) -> InteractionState {
    if dialogue.visible {
        InteractionState::DialogueActive
    } else if help_menu.visible {
        InteractionState::PromptVisible
    } else {
        InteractionState::Idle
    }
}

/// The state machine of the talk. `near` says that the player stands at the
/// other character, `accept` that the interact key was pressed in this tick.
///
/// Near the character the prompt shows, and accepting opens the dialogue.
/// Away from it the prompt is gone. An open dialogue stays open whatever
/// happens: no input closes it.
pub open spec fn next_interaction(state: InteractionState, near: bool, accept: bool) -> InteractionState {
    match state {
        InteractionState::DialogueActive => InteractionState::DialogueActive,
        InteractionState::Idle | InteractionState::PromptVisible => if near {
            if accept {
                InteractionState::DialogueActive
            } else {
                InteractionState::PromptVisible
            }
        } else {
            InteractionState::Idle
        },
    }
}

/// The prompt after one tick of the talk: it shows, with its text, while the
/// player is near and no dialogue is open.
pub open spec fn help_menu_after_talk(
    help_menu: HelpMenuModel,
    dialogue: DialogueModel,
    near: bool,
) -> HelpMenuModel {
    if near && !dialogue.visible {
        HelpMenuModel { visible: true, text: PROMPT_TEXT@, ..help_menu }
    } else {
        HelpMenuModel { visible: false, ..help_menu }
    }
}

/// Whether this tick opens the dialogue.
pub open spec fn dialogue_opens(dialogue: DialogueModel, near: bool, accept: bool) -> bool {
    near && !dialogue.visible && accept
}

/// The dialogue after one tick of the talk: opening it shows it and loads
/// its text.
pub open spec fn dialogue_after_talk(dialogue: DialogueModel, near: bool, accept: bool) -> DialogueModel {
    if dialogue_opens(dialogue, near, accept) {
        DialogueModel { visible: true, text: GREETING_TEXT@, ..dialogue }
    } else {
        dialogue
    }
}

/// Where the prompt is drawn for this camera.
pub open spec fn prompt_corner(camera: Camera) -> Position {
    Position {
        x: clamp_i32(camera.position.x - PROMPT_LEFT) as i32,
        y: clamp_i32(camera.position.y + PROMPT_DOWN) as i32,
    }
}

/// Where the dialogue box is drawn for this camera.
pub open spec fn dialogue_corner(camera: Camera) -> Position {
    Position {
        x: clamp_i32(camera.position.x - DIALOGUE_LEFT) as i32,
        y: clamp_i32(camera.position.y + DIALOGUE_DOWN) as i32,
    }
}

/// The prompt, moved to its place on the screen if it shows.
pub open spec fn help_menu_placed(help_menu: HelpMenuModel, camera: Camera) -> HelpMenuModel {
    if help_menu.visible {
        HelpMenuModel { position: prompt_corner(camera), ..help_menu }
    } else {
        help_menu
    }
}

/// The dialogue box, moved to its place on the screen if it shows.
pub open spec fn dialogue_placed(dialogue: DialogueModel, camera: Camera) -> DialogueModel {
    if dialogue.visible {
        DialogueModel { position: dialogue_corner(camera), ..dialogue }
    } else {
        dialogue
    }
}

/// One tick of the talk moves the panels as the state machine says.
pub proof fn lemma_talk_follows_state_machine(
    help_menu: HelpMenuModel,
    dialogue: DialogueModel,
    near: bool,
    accept: bool,
)
    ensures
        interaction_state(
            help_menu_after_talk(help_menu, dialogue, near),
            dialogue_after_talk(dialogue, near, accept),
        ) == next_interaction(interaction_state(help_menu, dialogue), near, accept),
{
}

/// A reveal only adds to the end of the output, and changes nothing once
/// the dialogue is finished.
pub proof fn lemma_reveal_extends_output(dialogue: DialogueModel, line_width: int)
    ensures
        dialogue.output_text.is_prefix_of(dialogue_after_reveal(dialogue, line_width).output_text),
        dialogue.text_wrap_finished ==> dialogue_after_reveal(dialogue, line_width) == dialogue,
        dialogue_after_reveal(dialogue, line_width).text == dialogue.text,
        dialogue_after_reveal(dialogue, line_width).visible == dialogue.visible,
{
}

/// `String::push`: puts the character at the end of the string and changes
/// nothing else.
#[verifier::external_body]
fn push_char(text: &mut String, c: char)
    ensures
        final(text)@ == old(text)@.push(c),
{
    text.push(c);
}

/// A new line of the dialogue: the start mark alone.
fn new_line() -> (line: String)
    ensures
        line@ == line_start(),
{
    proof {
        reveal_strlit(":");
    }
    let line = String::from_str(":");
    line
}

impl InteractionState {
    /// One step of the state machine of the talk.
    pub fn next(self, near: bool, accept: bool) -> (state: InteractionState)
        ensures
            state == next_interaction(self, near, accept),
    {
        match self {
            InteractionState::DialogueActive => InteractionState::DialogueActive,
            InteractionState::Idle | InteractionState::PromptVisible => {
                if near {
                    if accept {
                        InteractionState::DialogueActive
                    } else {
                        InteractionState::PromptVisible
                    }
                } else {
                    InteractionState::Idle
                }
            },
        }
    }
}

impl Help_Menu {
    pub fn new(position: Position, visible: bool, text: String) -> (help_menu: Help_Menu)
        ensures
            help_menu@ == (HelpMenuModel { position, visible, text: text@ }),
    {
        Help_Menu { position, visible, text }
    }

    /// Shows or hides the prompt for one tick of the talk.
    pub fn talk(&mut self, dialogue: &DialogueBox, near: bool)
        ensures
            final(self)@ == help_menu_after_talk(old(self)@, dialogue@, near),
    {
        if near && !dialogue.visible {
            self.visible = true;
            self.text = String::from_str(PROMPT_TEXT);
        } else {
            self.visible = false;
        }
    }

    /// Moves the prompt to its place on the screen, if it shows.
    pub fn place(&mut self, camera: Camera)
        ensures
            final(self)@ == help_menu_placed(old(self)@, camera),
    {
        if self.visible {
            self.position.x = shift_back(camera.position.x, PROMPT_LEFT);
            self.position.y = shift(camera.position.y, PROMPT_DOWN);
        }
    }
}

impl DialogueBox {
    /// A dialogue box on which nothing was revealed yet.
    pub fn new(
        position: Position,
        visible: bool,
        text: String,
        output_text: String,
        text_wrap_finished: bool,
    ) -> (dialogue: DialogueBox)
        ensures
            dialogue@ == (DialogueModel {
                position,
                visible,
                text: text@,
                output_text: output_text@,
                text_wrap_finished,
                current_line: line_start(),
                revealed: 0,
            }),
    {
        DialogueBox {
            position,
            visible,
            text,
            output_text,
            text_wrap_finished,
            current_line: new_line(),
            revealed: 0,
        }
    }

    /// Opens the dialogue if the player accepts the prompt in this tick, and
    /// says whether it did.
    pub fn talk(&mut self, near: bool, accept: bool) -> (opened: bool)
        ensures
            opened == dialogue_opens(old(self)@, near, accept),
            final(self)@ == dialogue_after_talk(old(self)@, near, accept),
    {
        if near && !self.visible && accept {
            self.visible = true;
            self.text = String::from_str(GREETING_TEXT);
            true
        } else {
            false
        }
    }

    /// Moves the dialogue box to its place on the screen, if it shows.
    pub fn place(&mut self, camera: Camera)
        ensures
            final(self)@ == dialogue_placed(old(self)@, camera),
    {
        if self.visible {
            self.position.x = shift_back(camera.position.x, DIALOGUE_LEFT);
            self.position.y = shift(camera.position.y, DIALOGUE_DOWN);
        }
    }

    /// The line whose rendered width the next call of `reveal_next` needs,
    /// or `None` if that call will reveal nothing.
    pub fn pending_line(&self) -> (line: Option<String>)
        ensures
            line_view(line) == line_to_measure(self@),
    {
        if !self.visible || self.text_wrap_finished {
            return None;
        }
        let len = self.text.as_str().unicode_len();
        if self.revealed >= len {
            return None;
        }
        let c = self.text.as_str().get_char(self.revealed);
        let mut line = self.current_line.clone();
        push_char(&mut line, c);
        Some(line)
    }

    /// Reveals the next character of the text, if one is due. `line_width`
    /// is the rendered width of the line that `pending_line` gave.
    ///
    /// The output never gets shorter, and a finished dialogue never changes.
    pub fn reveal_next(&mut self, line_width: u32)
        ensures
            final(self)@ == dialogue_after_reveal(old(self)@, line_width as int),
            old(self)@.output_text.is_prefix_of(final(self)@.output_text),
            old(self)@.text_wrap_finished ==> final(self)@ == old(self)@,
    {
        if !self.visible || self.text_wrap_finished {
            return ;
        }
        let len = self.text.as_str().unicode_len();
        if self.revealed >= len {
            return ;
        }
        let c = self.text.as_str().get_char(self.revealed);
        push_char(&mut self.output_text, c);
        if line_width > WRAP_WIDTH {
            push_char(&mut self.output_text, '\n');
            self.current_line = new_line();
        } else {
            push_char(&mut self.current_line, c);
        }
        self.revealed = self.revealed + 1;
        if self.revealed == len {
            self.text_wrap_finished = true;
        }
    }
}

} // verus!

//! Character and dialogue data, the dialogue state, and the built-in
//! `interact` flow that opens and closes dialogue with interactable entities.
use vstd::prelude::*;
use crate::actions::{GameplayInput, InputQuery};
use crate::world::{data_value, World};

verus! {

/// A character's data file.
#[derive(Debug, Clone)]
pub struct CharacterData {
    pub id: String,
    pub display_name: String,
    pub sprite: Option<String>,
    pub dialogue: Option<CharacterDialogueData>,
}

/// The dialogue references of a character.
#[derive(Debug, Clone)]
pub struct CharacterDialogueData {
    pub default: String,
}

/// A dialogue's data file.
#[derive(Debug, Clone)]
pub struct DialogueData {
    pub id: String,
    pub text: String,
}

/// The dialogue being shown and who speaks it.
#[derive(Debug, Clone)]
pub struct ActiveDialogue {
    pub speaker: String,
    pub dialogue: DialogueData,
}

/// Whether a dialogue is shown, and which.
#[derive(Debug, Clone, Default)]
pub struct DialogueState {
    active: Option<ActiveDialogue>,
}

impl DialogueState {
    /// The dialogue shown, if any.
    pub closed spec fn shown(&self) -> Option<ActiveDialogue> {
        self.active
    }

    /// No dialogue shown.
    pub fn new() -> (s: Self)
        ensures
            s.shown() is None,
    {
        DialogueState { active: None }
    }

    /// Shows `dialogue` spoken by `speaker`, replacing any shown dialogue.
    pub fn open(&mut self, speaker: String, dialogue: DialogueData)
        ensures
            final(self).shown() == Some(ActiveDialogue { speaker, dialogue }),
    {
        self.active = Some(ActiveDialogue { speaker, dialogue });
    }

    /// Hides the shown dialogue, if any.
    pub fn close(&mut self)
        ensures
            final(self).shown() is None,
    {
        self.active = None;
    }

    /// Moves the dialogue on; a dialogue has a single line, so this closes it.
    pub fn advance_or_close(&mut self)
        ensures
            final(self).shown() is None,
    {
        self.close();
    }

    pub fn is_active(&self) -> (r: bool)
        ensures
            r == self.shown() is Some,
    {
        self.active.is_some()
    }

    pub fn active(&self) -> (r: Option<&ActiveDialogue>)
        ensures
            match (r, self.shown()) {
                (Some(a), Some(s)) => *a == s,
                (None, None) => true,
                _ => false,
            },
    {
        match &self.active {
            Some(a) => Some(a),
            None => None,
        }
    }
}

/// The character file to load for the built-in interaction, when there is one
/// to load (see `interaction_start`).
pub open spec fn interaction_target<P>(world: World<P>, first: Option<crate::engine::EntityId>) -> Option<
    Seq<char>,
> {
    match first {
        Some(e) => match world.record_of(e) {
            Some(rec) => data_value(rec, "character"@),
            None => None,
        },
        None => None,
    }
}

/// The first step of the built-in `interact` flow. Nothing happens unless the
/// `interact` action was just pressed. Then a shown dialogue is closed;
/// otherwise the `character` data reference of the first interactable entity
/// is returned, for the caller to load.
pub fn interaction_start<P>(
    input: &GameplayInput,
    dialogue: &mut DialogueState,
    world: &World<P>,
) -> (r: Option<String>)
    requires
        world.wf(),
    ensures
        !"interact".began_in(*input.state, *input.actions) ==> r is None && *final(dialogue)
            == *old(dialogue),
        "interact".began_in(*input.state, *input.actions) && old(dialogue).shown() is Some ==> r is None
            && final(dialogue).shown() is None,
        "interact".began_in(*input.state, *input.actions) && old(dialogue).shown() is None ==> {
            &&& *final(dialogue) == *old(dialogue)
            &&& exists|first: Option<crate::engine::EntityId>|
                #[trigger] world.is_first_tagged(first, "interactable"@) && match (
                    r,
                    interaction_target(*world, first),
                ) {
                    (Some(s), Some(t)) => s@ == t,
                    (None, None) => true,
                    _ => false,
                }
        },
{
    if !input.just_pressed("interact") {
        return None;
    }
    if dialogue.is_active() {
        dialogue.advance_or_close();
        return None;
    }
    let first = world.first_interactable();
    assert(world.is_first_tagged(first, "interactable"@));
    match first {
        Some(entity) => match world.data_ref(entity, "character") {
            Some(character) => Some(crate::text::owned(character)),
            None => None,
        },
        None => None,
    }
}

/// The dialogue a character opens with, if it names one.
pub fn default_dialogue_ref(character: &CharacterData) -> (r: Option<&str>)
    ensures
        match (r, character.dialogue) {
            (Some(s), Some(d)) => s@ == d.default@,
            (None, None) => true,
            _ => false,
        },
{
    match &character.dialogue {
        Some(d) => Some(d.default.as_str()),
        None => None,
    }
}

/// The last step of the built-in flow: shows the loaded dialogue with the
/// character's display name as speaker.
pub fn open_character_dialogue(
    dialogue: &mut DialogueState,
    character: CharacterData,
    loaded: DialogueData,
)
    ensures
        final(dialogue).shown() == Some(
            ActiveDialogue { speaker: character.display_name, dialogue: loaded },
        ),
{
    dialogue.open(character.display_name, loaded);
}

} // verus!

//! The conversation state machine: the single source of truth for what
//! happens next, given the current state and an inbound event.
//!
//! The machine itself performs no I/O.  For a step that depends on the
//! outside world, [`query_for`] names the gateway question to ask; the
//! caller performs it and hands the answer back in as a [`Data`] value.
//! [`handle`] then returns the full [`Transition`]: the replies to send,
//! the store writes to apply, and the next state.  A gateway failure is
//! passed in as [`Data::Failed`] and leaves the state unchanged, so the
//! user may retry the same action.

use vstd::prelude::*;
use crate::commands::{
    Command, DataCommands, DietCommands, MenuCommands, TrainingsCommands, spec_data_from,
    spec_diet_from, spec_menu_from, spec_trainings_from,
};
use crate::email::{is_valid_email, spec_valid_email};
use crate::parse::{
    DataUpdateError, HeightWeightError, SizeField, parse_age, parse_data_update,
    parse_height_weight, parse_sizes, spec_parse_age, spec_parse_data_update,
    spec_parse_height_weight, spec_parse_sizes,
};
use crate::profile::{Sizes, TrainingKind, Users};

verus! {

/// A shared contact: the payload of the phone-number step.
#[derive(Clone, Debug, PartialEq, Eq)]
pub struct Contact {
    pub phone_number: String,
    pub first_name: String,
    pub telegram_id: u64,
}

/// An inbound chat event.
#[derive(Clone, Debug, PartialEq, Eq)]
pub enum Event {
    /// An ordinary text message.
    Text(String),
    /// A shared contact.
    Contact(Contact),
    /// A slash command.
    Command(Command),
    /// A message with neither text nor contact.
    Other,
}

/// Where the conversation is.  Every variant past registration carries
/// the phone number of the user it belongs to.
#[derive(Clone, Debug, PartialEq, Eq)]
pub enum State {
    Start,
    AwaitingPhoneNumber,
    AwaitingEmail { phone_number: String },
    AwaitingAge { phone_number: String },
    AwaitingHeightWeight { phone_number: String },
    MainMenu { phone_number: String },
    HomeTrainingMenu { phone_number: String },
    GymTrainingMenu { phone_number: String },
    DietMenu { phone_number: String },
    DataMenu { phone_number: String },
    AddingTraining { phone_number: String, kind: TrainingKind },
    AddingDiet { phone_number: String },
    AwaitingDataUpdate { phone_number: String },
    AwaitingSizeUpdate { phone_number: String },
}

impl Default for State {
    fn default() -> (r: State)
        ensures
            r == State::Start,
    {
        State::Start
    }
}

/// The gateway question a step needs answered before it can be decided.
#[derive(Clone, Debug, PartialEq, Eq)]
pub enum Query {
    /// No gateway is involved.
    Nothing,
    /// Is a profile with this platform identity already stored?
    UserExists { telegram_id: u64 },
    /// Fetch the profile of this user and generate a training plan from
    /// their contraindications text and profile fields.
    GenerateTraining { phone_number: String, kind: TrainingKind },
    /// Fetch the profile of this user and generate a diet plan.
    GenerateDiet { phone_number: String },
    /// Fetch this user's saved training plan of the given kind.
    FetchTraining { phone_number: String, kind: TrainingKind },
    /// Fetch this user's saved diet plan.
    FetchDiet { phone_number: String },
    /// Delete this user's saved training plan of the given kind.
    DeleteTraining { phone_number: String, kind: TrainingKind },
    /// Delete this user's saved diet plan.
    DeleteDiet { phone_number: String },
    /// Fetch this user's profile and latest measurement snapshot.
    FetchProfileAndSize { phone_number: String },
    /// Fetch this user's full measurement history, oldest first.
    FetchHistory { phone_number: String },
}

/// The answer to a [`Query`], handed back by the caller.
#[derive(Clone, Debug, PartialEq, Eq)]
pub enum Data {
    /// Nothing was asked.
    Nothing,
    /// Whether the platform identity is already registered.
    UserExists(bool),
    /// The generated plan text.
    Generated(String),
    /// The saved plan text, or nothing saved yet.
    Plan(Option<String>),
    /// Whether the delete removed a saved plan.
    Deleted(bool),
    /// The profile and the latest measurement snapshot, if any.
    ProfileAndSize(Users, Option<Sizes>),
    /// The measurement history, oldest first.
    History(Vec<Sizes>),
    /// The gateway call failed.
    Failed,
}

/// A store write the caller must apply.
#[derive(Clone, Debug, PartialEq, Eq)]
pub enum Write {
    /// Create a profile on first contact share.
    CreateProfile { name: String, phone_number: String, telegram_id: u64 },
    /// Record the email of a user.
    SetEmail { phone_number: String, email: String },
    /// Record the age of a user.
    SetAge { phone_number: String, age: i32 },
    /// Record the height and weight of a user.
    SetHeightWeight { phone_number: String, height: i32, weight: i32 },
    /// Append a measurement snapshot to the user's history.
    InsertMeasurement { phone_number: String, sizes: Sizes },
    /// Save the training plan of the given kind, replacing any old one.
    SaveTraining { phone_number: String, kind: TrainingKind, content: String },
    /// Save the diet plan, replacing any old one.
    SaveDiet { phone_number: String, content: String },
}

/// An outbound reply.  Variants are semantic; their wording and keyboard
/// come from the rendering layer.
#[derive(Clone, Debug, PartialEq, Eq)]
pub enum Reply {
    CommandsHelp,
    Welcome,
    Cancelled,
    NotUnderstood,
    ServiceFailed,
    AlreadyRegistered,
    NewUserAskEmail,
    ThanksEmailAskAge,
    InvalidEmail,
    NeedEmail,
    ThanksAgeAskHeightWeight,
    InvalidAge,
    ThanksRegistered,
    InvalidHeightWeight,
    InvalidHeight,
    InvalidWeight,
    /// The chosen menu was opened; carries which one.
    OpenedMenu(MenuCommands),
    /// Back at the main menu.
    BackToMain,
    AddTrainingTitle,
    AskContraindicationsTraining,
    DeleteTrainingTitle,
    TrainingDeleted,
    TrainingAlreadyAbsent,
    ShowTrainingsTitle,
    TrainingShown(String),
    NoTrainingYet,
    TrainingAdded(String),
    AddDietTitle,
    AskContraindicationsDiet,
    DeleteDietTitle,
    DietDeleted,
    ShowDietTitle,
    DietShown(String),
    NoDietYet,
    DietAdded(String),
    UpdateDataTitle,
    AskDataUpdate,
    UpdateSizeTitle,
    AskSizeUpdate,
    DataUpdated,
    SizesUpdated,
    InvalidSizeField(SizeField),
    NeedData,
    /// The current profile figures and latest measurements; absent
    /// profile fields are reported as zero.
    DataReport { age: i32, height: i32, weight: i32, sizes: Sizes },
    NoDataYet,
    /// The measurement history to draw as a chart.
    Chart(Vec<Sizes>),
}

/// What one handled event amounts to: replies out, writes to apply, and
/// the next state.
#[derive(Debug)]
pub struct Transition {
    pub replies: Vec<Reply>,
    pub next: State,
    pub writes: Vec<Write>,
}

/// The mathematical value of a [`Transition`].
#[verifier::ext_equal]
pub struct TransitionModel {
    pub replies: Seq<Reply>,
    pub next: State,
    pub writes: Seq<Write>,
}

impl Transition {
    pub open spec fn model(self) -> TransitionModel {
        TransitionModel { replies: self.replies@, next: self.next, writes: self.writes@ }
    }
}

fn vec0<T>() -> (v: Vec<T>)
    ensures
        v@ == Seq::<T>::empty(),
{
    Vec::new()
}

fn vec1<T>(a: T) -> (v: Vec<T>)
    ensures
        v@ == seq![a],
{
    let mut v = Vec::new();
    v.push(a);
    proof {
        assert(v@ =~= seq![a]);
    }
    v
}

fn vec2<T>(a: T, b: T) -> (v: Vec<T>)
    ensures
        v@ == seq![a, b],
{
    let mut v = Vec::new();
    v.push(a);
    v.push(b);
    proof {
        assert(v@ =~= seq![a, b]);
    }
    v
}

/// A profile field reported as zero where it was never filled in.
pub open spec fn spec_opt0(o: Option<i32>) -> i32 {
    match o {
        Some(v) => v,
        None => 0,
    }
}

/// The transition of `/help`: describe the commands, stay put.
pub open spec fn model_help(s: State) -> TransitionModel {
    TransitionModel { replies: seq![Reply::CommandsHelp], next: s, writes: seq![] }
}

/// The transition of `/start`: greet and ask for the contact.
pub open spec fn model_start() -> TransitionModel {
    TransitionModel {
        replies: seq![Reply::Welcome],
        next: State::AwaitingPhoneNumber,
        writes: seq![],
    }
}

/// The transition of `/cancel`: abandon the flow.
pub open spec fn model_cancel() -> TransitionModel {
    TransitionModel { replies: seq![Reply::Cancelled], next: State::Start, writes: seq![] }
}

/// The transition of an event the current state cannot use.
pub open spec fn model_invalid(s: State) -> TransitionModel {
    TransitionModel { replies: seq![Reply::NotUnderstood], next: s, writes: seq![] }
}

/// The transition of a failed gateway call: report, stay put, write
/// nothing, so the user may retry.
pub open spec fn model_failed(s: State) -> TransitionModel {
    TransitionModel { replies: seq![Reply::ServiceFailed], next: s, writes: seq![] }
}

/// Lists the commands.
pub fn help(state: State) -> (t: Transition)
    ensures
        t.model() == model_help(state),
{
    let t = Transition { replies: vec1(Reply::CommandsHelp), next: state, writes: vec0() };
    proof {
        assert(t.model() =~= model_help(t.next));
    }
    t
}

/// Greets the user and requests their contact.
pub fn start() -> (t: Transition)
    ensures
        t.model() == model_start(),
{
    let t = Transition {
        replies: vec1(Reply::Welcome),
        next: State::AwaitingPhoneNumber,
        writes: vec0(),
    };
    proof {
        assert(t.model() =~= model_start());
    }
    t
}

/// Abandons the current flow.
pub fn cancel() -> (t: Transition)
    ensures
        t.model() == model_cancel(),
{
    let t = Transition { replies: vec1(Reply::Cancelled), next: State::Start, writes: vec0() };
    proof {
        assert(t.model() =~= model_cancel());
    }
    t
}

/// Rejects an event the current state cannot use, keeping the state.
pub fn invalid_state(state: State) -> (t: Transition)
    ensures
        t.model() == model_invalid(state),
{
    let t = Transition { replies: vec1(Reply::NotUnderstood), next: state, writes: vec0() };
    proof {
        assert(t.model() =~= model_invalid(t.next));
    }
    t
}

/// The transition of a shared contact: a known user goes straight to the
/// main menu; a new one gets a profile and is asked for an email.
pub open spec fn model_get_number(c: Contact, d: Data) -> TransitionModel {
    match d {
        Data::UserExists(true) => TransitionModel {
            replies: seq![Reply::AlreadyRegistered],
            next: State::MainMenu { phone_number: c.phone_number },
            writes: seq![],
        },
        Data::UserExists(false) => TransitionModel {
            replies: seq![Reply::NewUserAskEmail],
            next: State::AwaitingEmail { phone_number: c.phone_number },
            writes: seq![
                Write::CreateProfile {
                    name: c.first_name,
                    phone_number: c.phone_number,
                    telegram_id: c.telegram_id,
                },
            ],
        },
        _ => model_failed(State::AwaitingPhoneNumber),
    }
}

/// Handles a shared contact, given whether the platform identity is
/// already registered.
pub fn get_number(contact: Contact, data: Data) -> (t: Transition)
    ensures
        t.model() == model_get_number(contact, data),
{
    match data {
        Data::UserExists(true) => {
            let t = Transition {
                replies: vec1(Reply::AlreadyRegistered),
                next: State::MainMenu { phone_number: contact.phone_number.clone() },
                writes: vec0(),
            };
            proof {
                assert(t.model() =~= model_get_number(contact, Data::UserExists(true)));
            }
            t
        },
        Data::UserExists(false) => {
            let t = Transition {
                replies: vec1(Reply::NewUserAskEmail),
                next: State::AwaitingEmail { phone_number: contact.phone_number.clone() },
                writes: vec1(
                    Write::CreateProfile {
                        name: contact.first_name.clone(),
                        phone_number: contact.phone_number.clone(),
                        telegram_id: contact.telegram_id,
                    },
                ),
            };
            proof {
                assert(t.model() =~= model_get_number(contact, Data::UserExists(false)));
            }
            t
        },
        _ => {
            let t = Transition {
                replies: vec1(Reply::ServiceFailed),
                next: State::AwaitingPhoneNumber,
                writes: vec0(),
            };
            proof {
                assert(t.model() =~= model_get_number(contact, data));
            }
            t
        },
    }
}

/// The transition of the email step: a valid address is recorded and the
/// age is asked for; anything else re-prompts.
pub open spec fn model_get_email(p: String, text: Option<String>) -> TransitionModel {
    match text {
        Some(e) => if spec_valid_email(e@) {
            TransitionModel {
                replies: seq![Reply::ThanksEmailAskAge],
                next: State::AwaitingAge { phone_number: p },
                writes: seq![Write::SetEmail { phone_number: p, email: e }],
            }
        } else {
            TransitionModel {
                replies: seq![Reply::InvalidEmail],
                next: State::AwaitingEmail { phone_number: p },
                writes: seq![],
            }
        },
        None => TransitionModel {
            replies: seq![Reply::NeedEmail],
            next: State::AwaitingEmail { phone_number: p },
            writes: seq![],
        },
    }
}

/// Handles the email step of registration.
pub fn get_email(phone_number: String, text: Option<String>) -> (t: Transition)
    ensures
        t.model() == model_get_email(phone_number, text),
{
    match text {
        Some(e) => {
            if is_valid_email(e.as_str()) {
                let t = Transition {
                    replies: vec1(Reply::ThanksEmailAskAge),
                    next: State::AwaitingAge { phone_number: phone_number.clone() },
                    writes: vec1(
                        Write::SetEmail { phone_number: phone_number.clone(), email: e.clone() },
                    ),
                };
                proof {
                    assert(t.model() =~= model_get_email(phone_number, Some(e)));
                }
                t
            } else {
                let t = Transition {
                    replies: vec1(Reply::InvalidEmail),
                    next: State::AwaitingEmail { phone_number: phone_number.clone() },
                    writes: vec0(),
                };
                proof {
                    assert(t.model() =~= model_get_email(phone_number, Some(e)));
                }
                t
            }
        },
        None => {
            let t = Transition {
                replies: vec1(Reply::NeedEmail),
                next: State::AwaitingEmail { phone_number: phone_number.clone() },
                writes: vec0(),
            };
            proof {
                assert(t.model() =~= model_get_email(phone_number, None));
            }
            t
        },
    }
}

/// The transition of the age step: an integer from 1 to 99 is recorded
/// and height/weight are asked for; anything else re-prompts.
pub open spec fn model_get_age(p: String, text: Option<String>) -> TransitionModel {
    match text {
        Some(a) => match spec_parse_age(a@) {
            Some(age) => TransitionModel {
                replies: seq![Reply::ThanksAgeAskHeightWeight],
                next: State::AwaitingHeightWeight { phone_number: p },
                writes: seq![Write::SetAge { phone_number: p, age }],
            },
            None => TransitionModel {
                replies: seq![Reply::InvalidAge],
                next: State::AwaitingAge { phone_number: p },
                writes: seq![],
            },
        },
        None => TransitionModel {
            replies: seq![Reply::InvalidAge],
            next: State::AwaitingAge { phone_number: p },
            writes: seq![],
        },
    }
}

/// Handles the age step of registration.
pub fn get_age(phone_number: String, text: Option<String>) -> (t: Transition)
    ensures
        t.model() == model_get_age(phone_number, text),
{
    match text {
        Some(a) => match parse_age(a.as_str()) {
            Some(age) => {
                let t = Transition {
                    replies: vec1(Reply::ThanksAgeAskHeightWeight),
                    next: State::AwaitingHeightWeight { phone_number: phone_number.clone() },
                    writes: vec1(Write::SetAge { phone_number: phone_number.clone(), age }),
                };
                proof {
                    assert(t.model() =~= model_get_age(phone_number, Some(a)));
                }
                t
            },
            None => {
                let t = Transition {
                    replies: vec1(Reply::InvalidAge),
                    next: State::AwaitingAge { phone_number: phone_number.clone() },
                    writes: vec0(),
                };
                proof {
                    assert(t.model() =~= model_get_age(phone_number, Some(a)));
                }
                t
            },
        },
        None => {
            let t = Transition {
                replies: vec1(Reply::InvalidAge),
                next: State::AwaitingAge { phone_number: phone_number.clone() },
                writes: vec0(),
            };
            proof {
                assert(t.model() =~= model_get_age(phone_number, None));
            }
            t
        },
    }
}

/// The transition of the height/weight step: `"<int> <int>"` completes
/// registration and opens the main menu; anything else re-prompts,
/// naming the part at fault.
pub open spec fn model_get_height_and_weight(p: String, text: Option<String>) -> TransitionModel {
    match text {
        Some(s) => match spec_parse_height_weight(s@) {
            Ok((height, weight)) => TransitionModel {
                replies: seq![Reply::ThanksRegistered],
                next: State::MainMenu { phone_number: p },
                writes: seq![Write::SetHeightWeight { phone_number: p, height, weight }],
            },
            Err(HeightWeightError::WrongShape) => TransitionModel {
                replies: seq![Reply::InvalidHeightWeight],
                next: State::AwaitingHeightWeight { phone_number: p },
                writes: seq![],
            },
            Err(HeightWeightError::BadHeight) => TransitionModel {
                replies: seq![Reply::InvalidHeight],
                next: State::AwaitingHeightWeight { phone_number: p },
                writes: seq![],
            },
            Err(HeightWeightError::BadWeight) => TransitionModel {
                replies: seq![Reply::InvalidWeight],
                next: State::AwaitingHeightWeight { phone_number: p },
                writes: seq![],
            },
        },
        None => TransitionModel {
            replies: seq![Reply::InvalidHeightWeight],
            next: State::AwaitingHeightWeight { phone_number: p },
            writes: seq![],
        },
    }
}

/// Handles the height/weight step of registration.
pub fn get_height_and_weight(phone_number: String, text: Option<String>) -> (t: Transition)
    ensures
        t.model() == model_get_height_and_weight(phone_number, text),
{
    let reply = match &text {
        Some(s) => match parse_height_weight(s.as_str()) {
            Ok((height, weight)) => {
                let t = Transition {
                    replies: vec1(Reply::ThanksRegistered),
                    next: State::MainMenu { phone_number: phone_number.clone() },
                    writes: vec1(
                        Write::SetHeightWeight {
                            phone_number: phone_number.clone(),
                            height,
                            weight,
                        },
                    ),
                };
                proof {
                    assert(t.model() =~= model_get_height_and_weight(phone_number, text));
                }
                return t;
            },
            Err(HeightWeightError::WrongShape) => Reply::InvalidHeightWeight,
            Err(HeightWeightError::BadHeight) => Reply::InvalidHeight,
            Err(HeightWeightError::BadWeight) => Reply::InvalidWeight,
        },
        None => Reply::InvalidHeightWeight,
    };
    let t = Transition {
        replies: vec1(reply),
        next: State::AwaitingHeightWeight { phone_number: phone_number.clone() },
        writes: vec0(),
    };
    proof {
        assert(t.model() =~= model_get_height_and_weight(phone_number, text));
    }
    t
}

/// The menu state a training kind's menu belongs to.
pub open spec fn menu_state_of(kind: TrainingKind, p: String) -> State {
    match kind {
        TrainingKind::Home => State::HomeTrainingMenu { phone_number: p },
        TrainingKind::Gym => State::GymTrainingMenu { phone_number: p },
    }
}

/// The transition of the main menu: a recognized label opens its menu,
/// `go back` stays at the main menu, anything else is rejected in place.
pub open spec fn model_change_menu(p: String, text: Option<String>) -> TransitionModel {
    match text {
        Some(s) => match spec_menu_from(s@) {
            MenuCommands::MyHomeTrainings => TransitionModel {
                replies: seq![Reply::OpenedMenu(MenuCommands::MyHomeTrainings)],
                next: State::HomeTrainingMenu { phone_number: p },
                writes: seq![],
            },
            MenuCommands::MyGymTrainings => TransitionModel {
                replies: seq![Reply::OpenedMenu(MenuCommands::MyGymTrainings)],
                next: State::GymTrainingMenu { phone_number: p },
                writes: seq![],
            },
            MenuCommands::MyDiet => TransitionModel {
                replies: seq![Reply::OpenedMenu(MenuCommands::MyDiet)],
                next: State::DietMenu { phone_number: p },
                writes: seq![],
            },
            MenuCommands::Data => TransitionModel {
                replies: seq![Reply::OpenedMenu(MenuCommands::Data)],
                next: State::DataMenu { phone_number: p },
                writes: seq![],
            },
            MenuCommands::GoBack => TransitionModel {
                replies: seq![Reply::BackToMain],
                next: State::MainMenu { phone_number: p },
                writes: seq![],
            },
            MenuCommands::Unrecognized => model_invalid(State::MainMenu { phone_number: p }),
        },
        None => TransitionModel {
            replies: seq![],
            next: State::MainMenu { phone_number: p },
            writes: seq![],
        },
    }
}

/// Routes a main-menu button press.
pub fn change_menu(phone_number: String, text: Option<String>) -> (t: Transition)
    ensures
        t.model() == model_change_menu(phone_number, text),
{
    match &text {
        Some(s) => {
            let cmd = MenuCommands::from_label(s.as_str());
            let t = match cmd {
                MenuCommands::MyHomeTrainings => Transition {
                    replies: vec1(Reply::OpenedMenu(MenuCommands::MyHomeTrainings)),
                    next: State::HomeTrainingMenu { phone_number: phone_number.clone() },
                    writes: vec0(),
                },
                MenuCommands::MyGymTrainings => Transition {
                    replies: vec1(Reply::OpenedMenu(MenuCommands::MyGymTrainings)),
                    next: State::GymTrainingMenu { phone_number: phone_number.clone() },
                    writes: vec0(),
                },
                MenuCommands::MyDiet => Transition {
                    replies: vec1(Reply::OpenedMenu(MenuCommands::MyDiet)),
                    next: State::DietMenu { phone_number: phone_number.clone() },
                    writes: vec0(),
                },
                MenuCommands::Data => Transition {
                    replies: vec1(Reply::OpenedMenu(MenuCommands::Data)),
                    next: State::DataMenu { phone_number: phone_number.clone() },
                    writes: vec0(),
                },
                MenuCommands::GoBack => Transition {
                    replies: vec1(Reply::BackToMain),
                    next: State::MainMenu { phone_number: phone_number.clone() },
                    writes: vec0(),
                },
                MenuCommands::Unrecognized => Transition {
                    replies: vec1(Reply::NotUnderstood),
                    next: State::MainMenu { phone_number: phone_number.clone() },
                    writes: vec0(),
                },
            };
            proof {
                assert(t.model() =~= model_change_menu(phone_number, text));
            }
            t
        },
        None => {
            let t = Transition {
                replies: vec0(),
                next: State::MainMenu { phone_number: phone_number.clone() },
                writes: vec0(),
            };
            proof {
                assert(t.model() =~= model_change_menu(phone_number, text));
            }
            t
        },
    }
}

/// The transition of showing a saved training plan: its text when one is
/// saved, a friendly note when none is; the menu is kept either way.
pub open spec fn model_show_trainings(p: String, kind: TrainingKind, d: Data) -> TransitionModel {
    match d {
        Data::Plan(Some(c)) => TransitionModel {
            replies: seq![Reply::ShowTrainingsTitle, Reply::TrainingShown(c)],
            next: menu_state_of(kind, p),
            writes: seq![],
        },
        Data::Plan(None) => TransitionModel {
            replies: seq![Reply::ShowTrainingsTitle, Reply::NoTrainingYet],
            next: menu_state_of(kind, p),
            writes: seq![],
        },
        _ => model_failed(menu_state_of(kind, p)),
    }
}

/// Shows the saved training plan handed in as `data`.
pub fn show_trainings(phone_number: String, kind: TrainingKind, data: Data) -> (t: Transition)
    ensures
        t.model() == model_show_trainings(phone_number, kind, data),
{
    let next = match kind {
        TrainingKind::Home => State::HomeTrainingMenu { phone_number: phone_number.clone() },
        TrainingKind::Gym => State::GymTrainingMenu { phone_number: phone_number.clone() },
    };
    match data {
        Data::Plan(Some(c)) => {
            let t = Transition {
                replies: vec2(Reply::ShowTrainingsTitle, Reply::TrainingShown(c.clone())),
                next,
                writes: vec0(),
            };
            proof {
                assert(t.model() =~= model_show_trainings(phone_number, kind, Data::Plan(Some(c))));
            }
            t
        },
        Data::Plan(None) => {
            let t = Transition {
                replies: vec2(Reply::ShowTrainingsTitle, Reply::NoTrainingYet),
                next,
                writes: vec0(),
            };
            proof {
                assert(t.model() =~= model_show_trainings(phone_number, kind, Data::Plan(None)));
            }
            t
        },
        _ => {
            let t = Transition { replies: vec1(Reply::ServiceFailed), next, writes: vec0() };
            proof {
                assert(t.model() =~= model_show_trainings(phone_number, kind, data));
            }
            t
        },
    }
}

/// The transition of deleting a saved training plan: reports whether one
/// was there to delete; the menu is kept either way.
pub open spec fn model_delete_training(p: String, kind: TrainingKind, d: Data) -> TransitionModel {
    match d {
        Data::Deleted(true) => TransitionModel {
            replies: seq![Reply::DeleteTrainingTitle, Reply::TrainingDeleted],
            next: menu_state_of(kind, p),
            writes: seq![],
        },
        Data::Deleted(false) => TransitionModel {
            replies: seq![Reply::DeleteTrainingTitle, Reply::TrainingAlreadyAbsent],
            next: menu_state_of(kind, p),
            writes: seq![],
        },
        _ => model_failed(menu_state_of(kind, p)),
    }
}

/// Reports the outcome of a training-plan delete handed in as `data`.
pub fn delete_training(phone_number: String, kind: TrainingKind, data: Data) -> (t: Transition)
    ensures
        t.model() == model_delete_training(phone_number, kind, data),
{
    let next = match kind {
        TrainingKind::Home => State::HomeTrainingMenu { phone_number: phone_number.clone() },
        TrainingKind::Gym => State::GymTrainingMenu { phone_number: phone_number.clone() },
    };
    match data {
        Data::Deleted(true) => {
            let t = Transition {
                replies: vec2(Reply::DeleteTrainingTitle, Reply::TrainingDeleted),
                next,
                writes: vec0(),
            };
            proof {
                assert(t.model() =~= model_delete_training(phone_number, kind, Data::Deleted(
                    true)));
            }
            t
        },
        Data::Deleted(false) => {
            let t = Transition {
                replies: vec2(Reply::DeleteTrainingTitle, Reply::TrainingAlreadyAbsent),
                next,
                writes: vec0(),
            };
            proof {
                assert(t.model() =~= model_delete_training(phone_number, kind, Data::Deleted(
                    false)));
            }
            t
        },
        _ => {
            let t = Transition { replies: vec1(Reply::ServiceFailed), next, writes: vec0() };
            proof {
                assert(t.model() =~= model_delete_training(phone_number, kind, data));
            }
            t
        },
    }
}

/// The transition of a training menu: `add` asks for contraindications,
/// `delete` and `show` act on the store result, `go back` returns to the
/// main menu, anything else is rejected in place.
pub open spec fn model_training_menu(
    kind: TrainingKind,
    p: String,
    text: Option<String>,
    d: Data,
) -> TransitionModel {
    match text {
        Some(s) => match spec_trainings_from(s@) {
            TrainingsCommands::AddTraining => TransitionModel {
                replies: seq![Reply::AddTrainingTitle, Reply::AskContraindicationsTraining],
                next: State::AddingTraining { phone_number: p, kind },
                writes: seq![],
            },
            TrainingsCommands::DeleteTraining => model_delete_training(p, kind, d),
            TrainingsCommands::ShowTrainings => model_show_trainings(p, kind, d),
            TrainingsCommands::GoBack => TransitionModel {
                replies: seq![Reply::BackToMain],
                next: State::MainMenu { phone_number: p },
                writes: seq![],
            },
            TrainingsCommands::Unrecognized => model_invalid(menu_state_of(kind, p)),
        },
        None => TransitionModel { replies: seq![], next: menu_state_of(kind, p), writes: seq![] },
    }
}

fn training_menu(kind: TrainingKind, phone_number: String, text: Option<String>, data: Data) -> (t:
    Transition)
    ensures
        t.model() == model_training_menu(kind, phone_number, text, data),
{
    match &text {
        Some(s) => {
            let cmd = TrainingsCommands::from_label(s.as_str());
            match cmd {
                TrainingsCommands::AddTraining => {
                    let t = Transition {
                        replies: vec2(
                            Reply::AddTrainingTitle,
                            Reply::AskContraindicationsTraining,
                        ),
                        next: State::AddingTraining {
                            phone_number: phone_number.clone(),
                            kind,
                        },
                        writes: vec0(),
                    };
                    proof {
                        assert(t.model() =~= model_training_menu(kind, phone_number, text, data));
                    }
                    t
                },
                TrainingsCommands::DeleteTraining => delete_training(phone_number, kind, data),
                TrainingsCommands::ShowTrainings => show_trainings(phone_number, kind, data),
                TrainingsCommands::GoBack => {
                    let t = Transition {
                        replies: vec1(Reply::BackToMain),
                        next: State::MainMenu { phone_number: phone_number.clone() },
                        writes: vec0(),
                    };
                    proof {
                        assert(t.model() =~= model_training_menu(kind, phone_number, text, data));
                    }
                    t
                },
                TrainingsCommands::Unrecognized => {
                    let next = match kind {
                        TrainingKind::Home => State::HomeTrainingMenu {
                            phone_number: phone_number.clone(),
                        },
                        TrainingKind::Gym => State::GymTrainingMenu {
                            phone_number: phone_number.clone(),
                        },
                    };
                    let t = Transition {
                        replies: vec1(Reply::NotUnderstood),
                        next,
                        writes: vec0(),
                    };
                    proof {
                        assert(t.model() =~= model_training_menu(kind, phone_number, text, data));
                    }
                    t
                },
            }
        },
        None => {
            let next = match kind {
                TrainingKind::Home => State::HomeTrainingMenu {
                    phone_number: phone_number.clone(),
                },
                TrainingKind::Gym => State::GymTrainingMenu {
                    phone_number: phone_number.clone(),
                },
            };
            let t = Transition { replies: vec0(), next, writes: vec0() };
            proof {
                assert(t.model() =~= model_training_menu(kind, phone_number, text, data));
            }
            t
        },
    }
}

/// Routes a home-training-menu button press.
pub fn home_training_menu(phone_number: String, text: Option<String>, data: Data) -> (t:
    Transition)
    ensures
        t.model() == model_training_menu(TrainingKind::Home, phone_number, text, data),
{
    training_menu(TrainingKind::Home, phone_number, text, data)
}

/// Routes a gym-training-menu button press.
pub fn gym_training_menu(phone_number: String, text: Option<String>, data: Data) -> (t: Transition)
    ensures
        t.model() == model_training_menu(TrainingKind::Gym, phone_number, text, data),
{
    training_menu(TrainingKind::Gym, phone_number, text, data)
}

/// The transition of showing the saved diet: its text when one is saved,
/// a friendly note when none is; the diet menu is kept either way.
pub open spec fn model_show_diet(p: String, d: Data) -> TransitionModel {
    match d {
        Data::Plan(Some(c)) => TransitionModel {
            replies: seq![Reply::ShowDietTitle, Reply::DietShown(c)],
            next: State::DietMenu { phone_number: p },
            writes: seq![],
        },
        Data::Plan(None) => TransitionModel {
            replies: seq![Reply::ShowDietTitle, Reply::NoDietYet],
            next: State::DietMenu { phone_number: p },
            writes: seq![],
        },
        _ => model_failed(State::DietMenu { phone_number: p }),
    }
}

/// Shows the saved diet handed in as `data`.
pub fn show_diet(phone_number: String, data: Data) -> (t: Transition)
    ensures
        t.model() == model_show_diet(phone_number, data),
{
    let next = State::DietMenu { phone_number: phone_number.clone() };
    match data {
        Data::Plan(Some(c)) => {
            let t = Transition {
                replies: vec2(Reply::ShowDietTitle, Reply::DietShown(c.clone())),
                next,
                writes: vec0(),
            };
            proof {
                assert(t.model() =~= model_show_diet(phone_number, Data::Plan(Some(c))));
            }
            t
        },
        Data::Plan(None) => {
            let t = Transition {
                replies: vec2(Reply::ShowDietTitle, Reply::NoDietYet),
                next,
                writes: vec0(),
            };
            proof {
                assert(t.model() =~= model_show_diet(phone_number, Data::Plan(None)));
            }
            t
        },
        _ => {
            let t = Transition { replies: vec1(Reply::ServiceFailed), next, writes: vec0() };
            proof {
                assert(t.model() =~= model_show_diet(phone_number, data));
            }
            t
        },
    }
}

/// The transition of deleting the saved diet; the diet menu is kept.
pub open spec fn model_delete_diet(p: String, d: Data) -> TransitionModel {
    match d {
        Data::Deleted(_) => TransitionModel {
            replies: seq![Reply::DeleteDietTitle, Reply::DietDeleted],
            next: State::DietMenu { phone_number: p },
            writes: seq![],
        },
        _ => model_failed(State::DietMenu { phone_number: p }),
    }
}

/// Reports the outcome of a diet delete handed in as `data`.
pub fn delete_diet(phone_number: String, data: Data) -> (t: Transition)
    ensures
        t.model() == model_delete_diet(phone_number, data),
{
    let next = State::DietMenu { phone_number: phone_number.clone() };
    match data {
        Data::Deleted(_) => {
            let t = Transition {
                replies: vec2(Reply::DeleteDietTitle, Reply::DietDeleted),
                next,
                writes: vec0(),
            };
            proof {
                assert(t.model() =~= model_delete_diet(phone_number, data));
            }
            t
        },
        _ => {
            let t = Transition { replies: vec1(Reply::ServiceFailed), next, writes: vec0() };
            proof {
                assert(t.model() =~= model_delete_diet(phone_number, data));
            }
            t
        },
    }
}

/// The transition of the diet menu, mirroring the training menus.
pub open spec fn model_diet_menu(p: String, text: Option<String>, d: Data) -> TransitionModel {
    match text {
        Some(s) => match spec_diet_from(s@) {
            DietCommands::AddDiet => TransitionModel {
                replies: seq![Reply::AddDietTitle, Reply::AskContraindicationsDiet],
                next: State::AddingDiet { phone_number: p },
                writes: seq![],
            },
            DietCommands::DeleteDiet => model_delete_diet(p, d),
            DietCommands::ShowDiet => model_show_diet(p, d),
            DietCommands::GoBack => TransitionModel {
                replies: seq![Reply::BackToMain],
                next: State::MainMenu { phone_number: p },
                writes: seq![],
            },
            DietCommands::Unrecognized => model_invalid(State::DietMenu { phone_number: p }),
        },
        None => TransitionModel {
            replies: seq![],
            next: State::DietMenu { phone_number: p },
            writes: seq![],
        },
    }
}

/// Routes a diet-menu button press.
pub fn diet_menu(phone_number: String, text: Option<String>, data: Data) -> (t: Transition)
    ensures
        t.model() == model_diet_menu(phone_number, text, data),
{
    match &text {
        Some(s) => {
            let cmd = DietCommands::from_label(s.as_str());
            match cmd {
                DietCommands::AddDiet => {
                    let t = Transition {
                        replies: vec2(Reply::AddDietTitle, Reply::AskContraindicationsDiet),
                        next: State::AddingDiet { phone_number: phone_number.clone() },
                        writes: vec0(),
                    };
                    proof {
                        assert(t.model() =~= model_diet_menu(phone_number, text, data));
                    }
                    t
                },
                DietCommands::DeleteDiet => delete_diet(phone_number, data),
                DietCommands::ShowDiet => show_diet(phone_number, data),
                DietCommands::GoBack => {
                    let t = Transition {
                        replies: vec1(Reply::BackToMain),
                        next: State::MainMenu { phone_number: phone_number.clone() },
                        writes: vec0(),
                    };
                    proof {
                        assert(t.model() =~= model_diet_menu(phone_number, text, data));
                    }
                    t
                },
                DietCommands::Unrecognized => {
                    let t = Transition {
                        replies: vec1(Reply::NotUnderstood),
                        next: State::DietMenu { phone_number: phone_number.clone() },
                        writes: vec0(),
                    };
                    proof {
                        assert(t.model() =~= model_diet_menu(phone_number, text, data));
                    }
                    t
                },
            }
        },
        None => {
            let t = Transition {
                replies: vec0(),
                next: State::DietMenu { phone_number: phone_number.clone() },
                writes: vec0(),
            };
            proof {
                assert(t.model() =~= model_diet_menu(phone_number, text, data));
            }
            t
        },
    }
}

/// The transition of showing the stored figures: the report and the data
/// menu again when a snapshot exists, a friendly note otherwise; the data
/// menu is kept either way.
pub open spec fn model_show_data(p: String, d: Data) -> TransitionModel {
    match d {
        Data::ProfileAndSize(u, Some(sz)) => TransitionModel {
            replies: seq![
                Reply::DataReport {
                    age: spec_opt0(u.age),
                    height: spec_opt0(u.height),
                    weight: spec_opt0(u.weight),
                    sizes: sz,
                },
                Reply::OpenedMenu(MenuCommands::Data),
            ],
            next: State::DataMenu { phone_number: p },
            writes: seq![],
        },
        Data::ProfileAndSize(_, None) => TransitionModel {
            replies: seq![Reply::NoDataYet, Reply::BackToMain],
            next: State::DataMenu { phone_number: p },
            writes: seq![],
        },
        _ => model_failed(State::DataMenu { phone_number: p }),
    }
}

/// Shows the stored profile figures and latest measurements.
pub fn show_data(phone_number: String, data: Data) -> (t: Transition)
    ensures
        t.model() == model_show_data(phone_number, data),
{
    let next = State::DataMenu { phone_number: phone_number.clone() };
    match &data {
        Data::ProfileAndSize(u, Some(sz)) => {
            let age = match u.age {
                Some(v) => v,
                None => 0,
            };
            let height = match u.height {
                Some(v) => v,
                None => 0,
            };
            let weight = match u.weight {
                Some(v) => v,
                None => 0,
            };
            let t = Transition {
                replies: vec2(
                    Reply::DataReport { age, height, weight, sizes: *sz },
                    Reply::OpenedMenu(MenuCommands::Data),
                ),
                next,
                writes: vec0(),
            };
            proof {
                assert(t.model() =~= model_show_data(phone_number, data));
            }
            t
        },
        Data::ProfileAndSize(_, None) => {
            let t = Transition {
                replies: vec2(Reply::NoDataYet, Reply::BackToMain),
                next,
                writes: vec0(),
            };
            proof {
                assert(t.model() =~= model_show_data(phone_number, data));
            }
            t
        },
        _ => {
            let t = Transition { replies: vec1(Reply::ServiceFailed), next, writes: vec0() };
            proof {
                assert(t.model() =~= model_show_data(phone_number, data));
            }
            t
        },
    }
}

/// The transition of showing progress: the measurement history goes out
/// as a chart; the data menu is kept.
pub open spec fn model_show_statistic(p: String, d: Data) -> TransitionModel {
    match d {
        Data::History(v) => TransitionModel {
            replies: seq![Reply::Chart(v)],
            next: State::DataMenu { phone_number: p },
            writes: seq![],
        },
        _ => model_failed(State::DataMenu { phone_number: p }),
    }
}

/// Sends the measurement history out as a chart.
pub fn show_statistic(phone_number: String, data: Data) -> (t: Transition)
    ensures
        t.model() == model_show_statistic(phone_number, data),
{
    let next = State::DataMenu { phone_number: phone_number.clone() };
    match data {
        Data::History(v) => {
            let ghost history = v;
            let t = Transition { replies: vec1(Reply::Chart(v)), next, writes: vec0() };
            proof {
                assert(t.model() =~= model_show_statistic(phone_number, Data::History(history)));
            }
            t
        },
        _ => {
            let t = Transition { replies: vec1(Reply::ServiceFailed), next, writes: vec0() };
            proof {
                assert(t.model() =~= model_show_statistic(phone_number, data));
            }
            t
        },
    }
}

/// The transition of the data menu: the update choices prompt for input,
/// the show choices act on the store result, `go back` returns to the
/// main menu, anything else is rejected in place.
pub open spec fn model_update_data(p: String, text: Option<String>, d: Data) -> TransitionModel {
    match text {
        Some(s) => match spec_data_from(s@) {
            DataCommands::UpdateData => TransitionModel {
                replies: seq![Reply::UpdateDataTitle, Reply::AskDataUpdate],
                next: State::AwaitingDataUpdate { phone_number: p },
                writes: seq![],
            },
            DataCommands::UpdateSize => TransitionModel {
                replies: seq![Reply::UpdateSizeTitle, Reply::AskSizeUpdate],
                next: State::AwaitingSizeUpdate { phone_number: p },
                writes: seq![],
            },
            DataCommands::ShowData => model_show_data(p, d),
            DataCommands::ShowStatistics => model_show_statistic(p, d),
            DataCommands::GoBack => TransitionModel {
                replies: seq![Reply::BackToMain],
                next: State::MainMenu { phone_number: p },
                writes: seq![],
            },
            DataCommands::Unrecognized => model_invalid(State::DataMenu { phone_number: p }),
        },
        None => model_invalid(State::DataMenu { phone_number: p }),
    }
}

/// Routes a data-menu button press.
pub fn update_data(phone_number: String, text: Option<String>, data: Data) -> (t: Transition)
    ensures
        t.model() == model_update_data(phone_number, text, data),
{
    match &text {
        Some(s) => {
            let cmd = DataCommands::from_label(s.as_str());
            match cmd {
                DataCommands::UpdateData => {
                    let t = Transition {
                        replies: vec2(Reply::UpdateDataTitle, Reply::AskDataUpdate),
                        next: State::AwaitingDataUpdate { phone_number: phone_number.clone() },
                        writes: vec0(),
                    };
                    proof {
                        assert(t.model() =~= model_update_data(phone_number, text, data));
                    }
                    t
                },
                DataCommands::UpdateSize => {
                    let t = Transition {
                        replies: vec2(Reply::UpdateSizeTitle, Reply::AskSizeUpdate),
                        next: State::AwaitingSizeUpdate { phone_number: phone_number.clone() },
                        writes: vec0(),
                    };
                    proof {
                        assert(t.model() =~= model_update_data(phone_number, text, data));
                    }
                    t
                },
                DataCommands::ShowData => show_data(phone_number, data),
                DataCommands::ShowStatistics => show_statistic(phone_number, data),
                DataCommands::GoBack => {
                    let t = Transition {
                        replies: vec1(Reply::BackToMain),
                        next: State::MainMenu { phone_number: phone_number.clone() },
                        writes: vec0(),
                    };
                    proof {
                        assert(t.model() =~= model_update_data(phone_number, text, data));
                    }
                    t
                },
                DataCommands::Unrecognized => {
                    let t = Transition {
                        replies: vec1(Reply::NotUnderstood),
                        next: State::DataMenu { phone_number: phone_number.clone() },
                        writes: vec0(),
                    };
                    proof {
                        assert(t.model() =~= model_update_data(phone_number, text, data));
                    }
                    t
                },
            }
        },
        None => {
            let t = Transition {
                replies: vec1(Reply::NotUnderstood),
                next: State::DataMenu { phone_number: phone_number.clone() },
                writes: vec0(),
            };
            proof {
                assert(t.model() =~= model_update_data(phone_number, text, data));
            }
            t
        },
    }
}

/// The transition of a profile-data update: all three keys present with
/// integer values update the profile and return to the data menu; a
/// missing or bad field re-prompts with nothing written.
pub open spec fn model_update_data_data(p: String, text: Option<String>) -> TransitionModel {
    match text {
        Some(s) => match spec_parse_data_update(s@) {
            Ok(du) => TransitionModel {
                replies: seq![Reply::DataUpdated],
                next: State::DataMenu { phone_number: p },
                writes: seq![
                    Write::SetAge { phone_number: p, age: du.age },
                    Write::SetHeightWeight {
                        phone_number: p,
                        height: du.height,
                        weight: du.weight,
                    },
                ],
            },
            Err(DataUpdateError::BadAge) => TransitionModel {
                replies: seq![Reply::InvalidAge],
                next: State::AwaitingDataUpdate { phone_number: p },
                writes: seq![],
            },
            Err(DataUpdateError::BadHeightWeight) => TransitionModel {
                replies: seq![Reply::InvalidHeightWeight],
                next: State::AwaitingDataUpdate { phone_number: p },
                writes: seq![],
            },
        },
        None => TransitionModel {
            replies: seq![Reply::NeedData],
            next: State::AwaitingDataUpdate { phone_number: p },
            writes: seq![],
        },
    }
}

/// Applies a `"вік: …, зріст: …, вага: …"` update, all-or-nothing.
pub fn update_data_data(phone_number: String, text: Option<String>) -> (t: Transition)
    ensures
        t.model() == model_update_data_data(phone_number, text),
{
    match &text {
        Some(s) => match parse_data_update(s.as_str()) {
            Ok(du) => {
                let t = Transition {
                    replies: vec1(Reply::DataUpdated),
                    next: State::DataMenu { phone_number: phone_number.clone() },
                    writes: vec2(
                        Write::SetAge { phone_number: phone_number.clone(), age: du.age },
                        Write::SetHeightWeight {
                            phone_number: phone_number.clone(),
                            height: du.height,
                            weight: du.weight,
                        },
                    ),
                };
                proof {
                    assert(t.model() =~= model_update_data_data(phone_number, text));
                }
                t
            },
            Err(DataUpdateError::BadAge) => {
                let t = Transition {
                    replies: vec1(Reply::InvalidAge),
                    next: State::AwaitingDataUpdate { phone_number: phone_number.clone() },
                    writes: vec0(),
                };
                proof {
                    assert(t.model() =~= model_update_data_data(phone_number, text));
                }
                t
            },
            Err(DataUpdateError::BadHeightWeight) => {
                let t = Transition {
                    replies: vec1(Reply::InvalidHeightWeight),
                    next: State::AwaitingDataUpdate { phone_number: phone_number.clone() },
                    writes: vec0(),
                };
                proof {
                    assert(t.model() =~= model_update_data_data(phone_number, text));
                }
                t
            },
        },
        None => {
            let t = Transition {
                replies: vec1(Reply::NeedData),
                next: State::AwaitingDataUpdate { phone_number: phone_number.clone() },
                writes: vec0(),
            };
            proof {
                assert(t.model() =~= model_update_data_data(phone_number, text));
            }
            t
        },
    }
}

/// The transition of a size update: all six labelled values insert a new
/// measurement snapshot and return to the data menu; a missing label
/// re-prompts, naming the first absent field, with nothing written.
pub open spec fn model_update_size(p: String, text: Option<String>) -> TransitionModel {
    match text {
        Some(s) => match spec_parse_sizes(s@) {
            Ok(sz) => TransitionModel {
                replies: seq![Reply::SizesUpdated],
                next: State::DataMenu { phone_number: p },
                writes: seq![Write::InsertMeasurement { phone_number: p, sizes: sz }],
            },
            Err(f) => TransitionModel {
                replies: seq![Reply::InvalidSizeField(f)],
                next: State::AwaitingSizeUpdate { phone_number: p },
                writes: seq![],
            },
        },
        None => TransitionModel {
            replies: seq![Reply::NeedData],
            next: State::AwaitingSizeUpdate { phone_number: p },
            writes: seq![],
        },
    }
}

/// Applies a `"<int> - <label>, …"` measurement update, all-or-nothing.
pub fn update_size(phone_number: String, text: Option<String>) -> (t: Transition)
    ensures
        t.model() == model_update_size(phone_number, text),
{
    match &text {
        Some(s) => match parse_sizes(s.as_str()) {
            Ok(sz) => {
                let t = Transition {
                    replies: vec1(Reply::SizesUpdated),
                    next: State::DataMenu { phone_number: phone_number.clone() },
                    writes: vec1(
                        Write::InsertMeasurement {
                            phone_number: phone_number.clone(),
                            sizes: sz,
                        },
                    ),
                };
                proof {
                    assert(t.model() =~= model_update_size(phone_number, text));
                }
                t
            },
            Err(f) => {
                let t = Transition {
                    replies: vec1(Reply::InvalidSizeField(f)),
                    next: State::AwaitingSizeUpdate { phone_number: phone_number.clone() },
                    writes: vec0(),
                };
                proof {
                    assert(t.model() =~= model_update_size(phone_number, text));
                }
                t
            },
        },
        None => {
            let t = Transition {
                replies: vec1(Reply::NeedData),
                next: State::AwaitingSizeUpdate { phone_number: phone_number.clone() },
                writes: vec0(),
            };
            proof {
                assert(t.model() =~= model_update_size(phone_number, text));
            }
            t
        },
    }
}

/// The transition of the training-generation step: the generated plan is
/// saved and shown, and its kind's menu reopens; a failure leaves the
/// state unchanged so the user may retry.
pub open spec fn model_add_training(p: String, kind: TrainingKind, d: Data) -> TransitionModel {
    match d {
        Data::Generated(c) => TransitionModel {
            replies: seq![Reply::TrainingAdded(c)],
            next: menu_state_of(kind, p),
            writes: seq![Write::SaveTraining { phone_number: p, kind, content: c }],
        },
        _ => model_failed(State::AddingTraining { phone_number: p, kind }),
    }
}

/// Saves and shows a generated training plan handed in as `data`.
pub fn add_training(phone_number: String, kind: TrainingKind, data: Data) -> (t: Transition)
    ensures
        t.model() == model_add_training(phone_number, kind, data),
{
    match data {
        Data::Generated(c) => {
            let ghost content = c;
            let next = match kind {
                TrainingKind::Home => State::HomeTrainingMenu {
                    phone_number: phone_number.clone(),
                },
                TrainingKind::Gym => State::GymTrainingMenu {
                    phone_number: phone_number.clone(),
                },
            };
            let t = Transition {
                replies: vec1(Reply::TrainingAdded(c.clone())),
                next,
                writes: vec1(
                    Write::SaveTraining {
                        phone_number: phone_number.clone(),
                        kind,
                        content: c,
                    },
                ),
            };
            proof {
                assert(t.model() =~= model_add_training(phone_number, kind, Data::Generated(
                    content)));
            }
            t
        },
        _ => {
            let t = Transition {
                replies: vec1(Reply::ServiceFailed),
                next: State::AddingTraining { phone_number: phone_number.clone(), kind },
                writes: vec0(),
            };
            proof {
                assert(t.model() =~= model_add_training(phone_number, kind, data));
            }
            t
        },
    }
}

/// The transition of the diet-generation step, mirroring the trainings.
pub open spec fn model_add_diet(p: String, d: Data) -> TransitionModel {
    match d {
        Data::Generated(c) => TransitionModel {
            replies: seq![Reply::DietAdded(c)],
            next: State::DietMenu { phone_number: p },
            writes: seq![Write::SaveDiet { phone_number: p, content: c }],
        },
        _ => model_failed(State::AddingDiet { phone_number: p }),
    }
}

/// Saves and shows a generated diet handed in as `data`.
pub fn add_diet(phone_number: String, data: Data) -> (t: Transition)
    ensures
        t.model() == model_add_diet(phone_number, data),
{
    match data {
        Data::Generated(c) => {
            let ghost content = c;
            let t = Transition {
                replies: vec1(Reply::DietAdded(c.clone())),
                next: State::DietMenu { phone_number: phone_number.clone() },
                writes: vec1(
                    Write::SaveDiet { phone_number: phone_number.clone(), content: c },
                ),
            };
            proof {
                assert(t.model() =~= model_add_diet(phone_number, Data::Generated(content)));
            }
            t
        },
        _ => {
            let t = Transition {
                replies: vec1(Reply::ServiceFailed),
                next: State::AddingDiet { phone_number: phone_number.clone() },
                writes: vec0(),
            };
            proof {
                assert(t.model() =~= model_add_diet(phone_number, data));
            }
            t
        },
    }
}

/// The transition of an event without text in the given state: the
/// registration steps re-prompt, the menus stay silent, the generation
/// steps generate from an empty contraindications text.
pub open spec fn model_no_text(s: State, d: Data) -> TransitionModel {
    match s {
        State::Start => model_invalid(s),
        State::AwaitingPhoneNumber => TransitionModel {
            replies: seq![],
            next: s,
            writes: seq![],
        },
        State::AwaitingEmail { phone_number } => model_get_email(phone_number, None),
        State::AwaitingAge { phone_number } => model_get_age(phone_number, None),
        State::AwaitingHeightWeight { phone_number } => model_get_height_and_weight(
            phone_number,
            None,
        ),
        State::MainMenu { phone_number } => model_change_menu(phone_number, None),
        State::HomeTrainingMenu { phone_number } => model_training_menu(
            TrainingKind::Home,
            phone_number,
            None,
            d,
        ),
        State::GymTrainingMenu { phone_number } => model_training_menu(
            TrainingKind::Gym,
            phone_number,
            None,
            d,
        ),
        State::DietMenu { phone_number } => model_diet_menu(phone_number, None, d),
        State::DataMenu { phone_number } => model_update_data(phone_number, None, d),
        State::AddingTraining { phone_number, kind } => model_add_training(
            phone_number,
            kind,
            d,
        ),
        State::AddingDiet { phone_number } => model_add_diet(phone_number, d),
        State::AwaitingDataUpdate { phone_number } => model_update_data_data(phone_number, None),
        State::AwaitingSizeUpdate { phone_number } => model_update_size(phone_number, None),
    }
}

/// What one handled event amounts to, for every state, event and gateway
/// answer: the whole transition table of the conversation.
pub open spec fn spec_handle(s: State, e: Event, d: Data) -> TransitionModel {
    match e {
        Event::Command(Command::Help) => model_help(s),
        Event::Command(Command::Cancel) => model_cancel(),
        Event::Command(Command::Start) => if s is Start {
            model_start()
        } else {
            model_invalid(s)
        },
        Event::Contact(c) => if s is AwaitingPhoneNumber {
            model_get_number(c, d)
        } else {
            model_no_text(s, d)
        },
        Event::Other => model_no_text(s, d),
        Event::Text(t) => match s {
            State::Start => model_invalid(s),
            State::AwaitingPhoneNumber => TransitionModel {
                replies: seq![],
                next: s,
                writes: seq![],
            },
            State::AwaitingEmail { phone_number } => model_get_email(phone_number, Some(t)),
            State::AwaitingAge { phone_number } => model_get_age(phone_number, Some(t)),
            State::AwaitingHeightWeight { phone_number } => model_get_height_and_weight(
                phone_number,
                Some(t),
            ),
            State::MainMenu { phone_number } => model_change_menu(phone_number, Some(t)),
            State::HomeTrainingMenu { phone_number } => model_training_menu(
                TrainingKind::Home,
                phone_number,
                Some(t),
                d,
            ),
            State::GymTrainingMenu { phone_number } => model_training_menu(
                TrainingKind::Gym,
                phone_number,
                Some(t),
                d,
            ),
            State::DietMenu { phone_number } => model_diet_menu(phone_number, Some(t), d),
            State::DataMenu { phone_number } => model_update_data(phone_number, Some(t), d),
            State::AddingTraining { phone_number, kind } => model_add_training(
                phone_number,
                kind,
                d,
            ),
            State::AddingDiet { phone_number } => model_add_diet(phone_number, d),
            State::AwaitingDataUpdate { phone_number } => model_update_data_data(
                phone_number,
                Some(t),
            ),
            State::AwaitingSizeUpdate { phone_number } => model_update_size(
                phone_number,
                Some(t),
            ),
        },
    }
}

fn dispatch_no_text(state: State, data: Data) -> (t: Transition)
    ensures
        t.model() == model_no_text(state, data),
{
    match state {
        State::Start => invalid_state(State::Start),
        State::AwaitingPhoneNumber => {
            let t = Transition {
                replies: vec0(),
                next: State::AwaitingPhoneNumber,
                writes: vec0(),
            };
            proof {
                assert(t.model() =~= model_no_text(State::AwaitingPhoneNumber, data));
            }
            t
        },
        State::AwaitingEmail { phone_number } => get_email(phone_number, None),
        State::AwaitingAge { phone_number } => get_age(phone_number, None),
        State::AwaitingHeightWeight { phone_number } => get_height_and_weight(phone_number, None),
        State::MainMenu { phone_number } => change_menu(phone_number, None),
        State::HomeTrainingMenu { phone_number } => home_training_menu(phone_number, None, data),
        State::GymTrainingMenu { phone_number } => gym_training_menu(phone_number, None, data),
        State::DietMenu { phone_number } => diet_menu(phone_number, None, data),
        State::DataMenu { phone_number } => update_data(phone_number, None, data),
        State::AddingTraining { phone_number, kind } => add_training(phone_number, kind, data),
        State::AddingDiet { phone_number } => add_diet(phone_number, data),
        State::AwaitingDataUpdate { phone_number } => update_data_data(phone_number, None),
        State::AwaitingSizeUpdate { phone_number } => update_size(phone_number, None),
    }
}

/// Handles one inbound event: dispatches on the current state, using the
/// gateway answer in `data` where the step needs one (see [`query_for`]).
pub fn handle(state: State, event: Event, data: Data) -> (t: Transition)
    ensures
        t.model() == spec_handle(state, event, data),
{
    match event {
        Event::Command(Command::Help) => help(state),
        Event::Command(Command::Cancel) => cancel(),
        Event::Command(Command::Start) => match state {
            State::Start => start(),
            _ => invalid_state(state),
        },
        Event::Contact(c) => match state {
            State::AwaitingPhoneNumber => get_number(c, data),
            _ => dispatch_no_text(state, data),
        },
        Event::Other => dispatch_no_text(state, data),
        Event::Text(t) => match state {
            State::Start => invalid_state(State::Start),
            State::AwaitingPhoneNumber => {
                let r = Transition {
                    replies: vec0(),
                    next: State::AwaitingPhoneNumber,
                    writes: vec0(),
                };
                proof {
                    assert(r.model() =~= spec_handle(State::AwaitingPhoneNumber, Event::Text(t),
                        data));
                }
                r
            },
            State::AwaitingEmail { phone_number } => get_email(phone_number, Some(t)),
            State::AwaitingAge { phone_number } => get_age(phone_number, Some(t)),
            State::AwaitingHeightWeight { phone_number } => get_height_and_weight(
                phone_number,
                Some(t),
            ),
            State::MainMenu { phone_number } => change_menu(phone_number, Some(t)),
            State::HomeTrainingMenu { phone_number } => home_training_menu(
                phone_number,
                Some(t),
                data,
            ),
            State::GymTrainingMenu { phone_number } => gym_training_menu(
                phone_number,
                Some(t),
                data,
            ),
            State::DietMenu { phone_number } => diet_menu(phone_number, Some(t), data),
            State::DataMenu { phone_number } => update_data(phone_number, Some(t), data),
            State::AddingTraining { phone_number, kind } => add_training(
                phone_number,
                kind,
                data,
            ),
            State::AddingDiet { phone_number } => add_diet(phone_number, data),
            State::AwaitingDataUpdate { phone_number } => update_data_data(
                phone_number,
                Some(t),
            ),
            State::AwaitingSizeUpdate { phone_number } => update_size(phone_number, Some(t)),
        },
    }
}

/// The gateway question an event without text needs answered.
pub open spec fn spec_no_text_query(s: State) -> Query {
    match s {
        State::AddingTraining { phone_number, kind } => Query::GenerateTraining {
            phone_number,
            kind,
        },
        State::AddingDiet { phone_number } => Query::GenerateDiet { phone_number },
        _ => Query::Nothing,
    }
}

/// The gateway question the given state and event need answered before
/// [`handle`] can decide the transition.
pub open spec fn spec_query(s: State, e: Event) -> Query {
    match e {
        Event::Command(_) => Query::Nothing,
        Event::Contact(c) => match s {
            State::AwaitingPhoneNumber => Query::UserExists { telegram_id: c.telegram_id },
            _ => spec_no_text_query(s),
        },
        Event::Other => spec_no_text_query(s),
        Event::Text(t) => match s {
            State::HomeTrainingMenu { phone_number } => match spec_trainings_from(t@) {
                TrainingsCommands::DeleteTraining => Query::DeleteTraining {
                    phone_number,
                    kind: TrainingKind::Home,
                },
                TrainingsCommands::ShowTrainings => Query::FetchTraining {
                    phone_number,
                    kind: TrainingKind::Home,
                },
                _ => Query::Nothing,
            },
            State::GymTrainingMenu { phone_number } => match spec_trainings_from(t@) {
                TrainingsCommands::DeleteTraining => Query::DeleteTraining {
                    phone_number,
                    kind: TrainingKind::Gym,
                },
                TrainingsCommands::ShowTrainings => Query::FetchTraining {
                    phone_number,
                    kind: TrainingKind::Gym,
                },
                _ => Query::Nothing,
            },
            State::DietMenu { phone_number } => match spec_diet_from(t@) {
                DietCommands::DeleteDiet => Query::DeleteDiet { phone_number },
                DietCommands::ShowDiet => Query::FetchDiet { phone_number },
                _ => Query::Nothing,
            },
            State::DataMenu { phone_number } => match spec_data_from(t@) {
                DataCommands::ShowData => Query::FetchProfileAndSize { phone_number },
                DataCommands::ShowStatistics => Query::FetchHistory { phone_number },
                _ => Query::Nothing,
            },
            State::AddingTraining { phone_number, kind } => Query::GenerateTraining {
                phone_number,
                kind,
            },
            State::AddingDiet { phone_number } => Query::GenerateDiet { phone_number },
            _ => Query::Nothing,
        },
    }
}

/// Names the gateway question to answer before calling [`handle`] with
/// this state and event.
pub fn query_for(state: &State, event: &Event) -> (q: Query)
    ensures
        q == spec_query(*state, *event),
{
    match event {
        Event::Command(_) => Query::Nothing,
        Event::Contact(c) => match state {
            State::AwaitingPhoneNumber => Query::UserExists { telegram_id: c.telegram_id },
            _ => no_text_query(state),
        },
        Event::Other => no_text_query(state),
        Event::Text(t) => match state {
            State::HomeTrainingMenu { phone_number } => match TrainingsCommands::from_label(
                t.as_str(),
            ) {
                TrainingsCommands::DeleteTraining => Query::DeleteTraining {
                    phone_number: phone_number.clone(),
                    kind: TrainingKind::Home,
                },
                TrainingsCommands::ShowTrainings => Query::FetchTraining {
                    phone_number: phone_number.clone(),
                    kind: TrainingKind::Home,
                },
                _ => Query::Nothing,
            },
            State::GymTrainingMenu { phone_number } => match TrainingsCommands::from_label(
                t.as_str(),
            ) {
                TrainingsCommands::DeleteTraining => Query::DeleteTraining {
                    phone_number: phone_number.clone(),
                    kind: TrainingKind::Gym,
                },
                TrainingsCommands::ShowTrainings => Query::FetchTraining {
                    phone_number: phone_number.clone(),
                    kind: TrainingKind::Gym,
                },
                _ => Query::Nothing,
            },
            State::DietMenu { phone_number } => match DietCommands::from_label(t.as_str()) {
                DietCommands::DeleteDiet => Query::DeleteDiet {
                    phone_number: phone_number.clone(),
                },
                DietCommands::ShowDiet => Query::FetchDiet {
                    phone_number: phone_number.clone(),
                },
                _ => Query::Nothing,
            },
            State::DataMenu { phone_number } => match DataCommands::from_label(t.as_str()) {
                DataCommands::ShowData => Query::FetchProfileAndSize {
                    phone_number: phone_number.clone(),
                },
                DataCommands::ShowStatistics => Query::FetchHistory {
                    phone_number: phone_number.clone(),
                },
                _ => Query::Nothing,
            },
            State::AddingTraining { phone_number, kind } => Query::GenerateTraining {
                phone_number: phone_number.clone(),
                kind: *kind,
            },
            State::AddingDiet { phone_number } => Query::GenerateDiet {
                phone_number: phone_number.clone(),
            },
            _ => Query::Nothing,
        },
    }
}

fn no_text_query(state: &State) -> (q: Query)
    ensures
        q == spec_no_text_query(*state),
{
    match state {
        State::AddingTraining { phone_number, kind } => Query::GenerateTraining {
            phone_number: phone_number.clone(),
            kind: *kind,
        },
        State::AddingDiet { phone_number } => Query::GenerateDiet {
            phone_number: phone_number.clone(),
        },
        _ => Query::Nothing,
    }
}

/// A state whose text input is a menu label.
pub open spec fn is_menu_state(s: State) -> bool {
    ||| s is MainMenu
    ||| s is HomeTrainingMenu
    ||| s is GymTrainingMenu
    ||| s is DietMenu
    ||| s is DataMenu
}

/// The text is not one of the labels the given menu state accepts.
pub open spec fn label_unrecognized(s: State, t: String) -> bool {
    match s {
        State::MainMenu { .. } => spec_menu_from(t@) is Unrecognized,
        State::HomeTrainingMenu { .. } => spec_trainings_from(t@) is Unrecognized,
        State::GymTrainingMenu { .. } => spec_trainings_from(t@) is Unrecognized,
        State::DietMenu { .. } => spec_diet_from(t@) is Unrecognized,
        State::DataMenu { .. } => spec_data_from(t@) is Unrecognized,
        _ => true,
    }
}

/// Unrecognized text in a state that expects a menu label is rejected in
/// place: one rejection reply, nothing written, and the next state is
/// exactly the state the machine was in.
pub proof fn lemma_unrecognized_menu_input_keeps_state(s: State, t: String, d: Data)
    requires
        is_menu_state(s),
        label_unrecognized(s, t),
    ensures
        spec_handle(s, Event::Text(t), d).next == s,
        spec_handle(s, Event::Text(t), d).replies == seq![Reply::NotUnderstood],
        spec_handle(s, Event::Text(t), d).writes == Seq::<Write>::empty(),
{
    assert(spec_handle(s, Event::Text(t), d).writes =~= Seq::<Write>::empty());
}

/// The text is the `go back` button of the given menu state.
pub open spec fn is_go_back(s: State, t: String) -> bool {
    match s {
        State::MainMenu { .. } => spec_menu_from(t@) is GoBack,
        State::HomeTrainingMenu { .. } => spec_trainings_from(t@) is GoBack,
        State::GymTrainingMenu { .. } => spec_trainings_from(t@) is GoBack,
        State::DietMenu { .. } => spec_diet_from(t@) is GoBack,
        State::DataMenu { .. } => spec_data_from(t@) is GoBack,
        _ => false,
    }
}

/// The statically defined parent of each menu state: every submenu's
/// parent is the main menu, and the main menu is its own parent.
pub open spec fn parent_of(s: State) -> State {
    match s {
        State::HomeTrainingMenu { phone_number } => State::MainMenu { phone_number },
        State::GymTrainingMenu { phone_number } => State::MainMenu { phone_number },
        State::DietMenu { phone_number } => State::MainMenu { phone_number },
        State::DataMenu { phone_number } => State::MainMenu { phone_number },
        _ => s,
    }
}

/// The `go back` button of any menu state returns to that state's
/// statically defined parent — never to the start state — writes
/// nothing, and announces the main menu.
pub proof fn lemma_go_back_returns_to_parent(s: State, t: String, d: Data)
    requires
        is_menu_state(s),
        is_go_back(s, t),
    ensures
        spec_handle(s, Event::Text(t), d).next == parent_of(s),
        !(parent_of(s) is Start),
        spec_handle(s, Event::Text(t), d).replies == seq![Reply::BackToMain],
        spec_handle(s, Event::Text(t), d).writes == Seq::<Write>::empty(),
{
    assert(spec_handle(s, Event::Text(t), d).writes =~= Seq::<Write>::empty());
}

} // verus!

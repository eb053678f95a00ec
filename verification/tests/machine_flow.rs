use fitness_bot::commands::Command;
use fitness_bot::machine::{
    handle, query_for, Contact, Data, Event, Query, Reply, State, Write,
};
use fitness_bot::profile::{Sizes, TrainingKind, Users};

fn text(s: &str) -> Event {
    Event::Text(s.to_string())
}

fn phone() -> String {
    "+380501112233".to_string()
}

fn profile() -> Users {
    Users {
        telegram_id: 42,
        name: "Олег".to_string(),
        email: Some("user@example.com".to_string()),
        phone_number: phone(),
        height: Some(180),
        weight: Some(75),
        age: Some(30),
    }
}

/// New contact share → profile created → AwaitingEmail; valid email →
/// AwaitingAge; valid age 30 → AwaitingHeightWeight; "180 75" → MainMenu,
/// with the profile fields carried by the writes.
#[test]
fn end_to_end_registration() {
    let t = handle(State::Start, Event::Command(Command::Start), Data::Nothing);
    assert_eq!(t.next, State::AwaitingPhoneNumber);
    assert_eq!(t.replies, vec![Reply::Welcome]);
    assert!(t.writes.is_empty());

    let contact = Contact {
        phone_number: phone(),
        first_name: "Олег".to_string(),
        telegram_id: 42,
    };
    let q = query_for(&t.next, &Event::Contact(contact.clone()));
    assert_eq!(q, Query::UserExists { telegram_id: 42 });
    let t = handle(t.next, Event::Contact(contact), Data::UserExists(false));
    assert_eq!(t.next, State::AwaitingEmail { phone_number: phone() });
    assert_eq!(t.replies, vec![Reply::NewUserAskEmail]);
    assert_eq!(
        t.writes,
        vec![Write::CreateProfile {
            name: "Олег".to_string(),
            phone_number: phone(),
            telegram_id: 42
        }]
    );

    let t = handle(t.next, text("user@example.com"), Data::Nothing);
    assert_eq!(t.next, State::AwaitingAge { phone_number: phone() });
    assert_eq!(t.replies, vec![Reply::ThanksEmailAskAge]);
    assert_eq!(
        t.writes,
        vec![Write::SetEmail {
            phone_number: phone(),
            email: "user@example.com".to_string()
        }]
    );

    let t = handle(t.next, text("30"), Data::Nothing);
    assert_eq!(t.next, State::AwaitingHeightWeight { phone_number: phone() });
    assert_eq!(
        t.writes,
        vec![Write::SetAge {
            phone_number: phone(),
            age: 30
        }]
    );

    let t = handle(t.next, text("180 75"), Data::Nothing);
    assert_eq!(t.next, State::MainMenu { phone_number: phone() });
    assert_eq!(t.replies, vec![Reply::ThanksRegistered]);
    assert_eq!(
        t.writes,
        vec![Write::SetHeightWeight {
            phone_number: phone(),
            height: 180,
            weight: 75
        }]
    );
}

#[test]
fn known_contact_goes_straight_to_main_menu() {
    let contact = Contact {
        phone_number: phone(),
        first_name: "Олег".to_string(),
        telegram_id: 42,
    };
    let t = handle(
        State::AwaitingPhoneNumber,
        Event::Contact(contact),
        Data::UserExists(true),
    );
    assert_eq!(t.next, State::MainMenu { phone_number: phone() });
    assert_eq!(t.replies, vec![Reply::AlreadyRegistered]);
    assert!(t.writes.is_empty());
}

#[test]
fn invalid_email_reprompts_without_writes() {
    let s = State::AwaitingEmail { phone_number: phone() };
    let t = handle(s.clone(), text("user@@example"), Data::Nothing);
    assert_eq!(t.next, s);
    assert_eq!(t.replies, vec![Reply::InvalidEmail]);
    assert!(t.writes.is_empty());
}

#[test]
fn invalid_age_reprompts_without_writes() {
    let s = State::AwaitingAge { phone_number: phone() };
    for bad in ["0", "100", "-5", "abc"] {
        let t = handle(s.clone(), text(bad), Data::Nothing);
        assert_eq!(t.next, s);
        assert_eq!(t.replies, vec![Reply::InvalidAge]);
        assert!(t.writes.is_empty());
    }
}

#[test]
fn invalid_height_weight_names_the_fault() {
    let s = State::AwaitingHeightWeight { phone_number: phone() };
    let t = handle(s.clone(), text("185"), Data::Nothing);
    assert_eq!(t.replies, vec![Reply::InvalidHeightWeight]);
    assert_eq!(t.next, s);
    let t = handle(s.clone(), text("185 ninety"), Data::Nothing);
    assert_eq!(t.replies, vec![Reply::InvalidWeight]);
    let t = handle(s.clone(), text("tall 90"), Data::Nothing);
    assert_eq!(t.replies, vec![Reply::InvalidHeight]);
    assert!(t.writes.is_empty());
}

/// Unrecognized text in every menu-label state leaves the state exactly
/// as it was.
#[test]
fn unrecognized_menu_text_keeps_state() {
    let menus = [
        State::MainMenu { phone_number: phone() },
        State::HomeTrainingMenu { phone_number: phone() },
        State::GymTrainingMenu { phone_number: phone() },
        State::DietMenu { phone_number: phone() },
        State::DataMenu { phone_number: phone() },
    ];
    for s in menus {
        let t = handle(s.clone(), text("щось незрозуміле"), Data::Nothing);
        assert_eq!(t.next, s);
        assert_eq!(t.replies, vec![Reply::NotUnderstood]);
        assert!(t.writes.is_empty());
    }
}

/// Go-back from every submenu returns to its statically defined parent,
/// the main menu — never to Start.
#[test]
fn go_back_returns_to_parent() {
    let submenus = [
        State::HomeTrainingMenu { phone_number: phone() },
        State::GymTrainingMenu { phone_number: phone() },
        State::DietMenu { phone_number: phone() },
        State::DataMenu { phone_number: phone() },
    ];
    for s in submenus {
        let t = handle(s, text("На головну"), Data::Nothing);
        assert_eq!(t.next, State::MainMenu { phone_number: phone() });
        assert_ne!(t.next, State::Start);
        assert_eq!(t.replies, vec![Reply::BackToMain]);
    }
}

#[test]
fn main_menu_routes_to_each_submenu() {
    let s = State::MainMenu { phone_number: phone() };
    let t = handle(s.clone(), text("Мої домашні тренування"), Data::Nothing);
    assert_eq!(t.next, State::HomeTrainingMenu { phone_number: phone() });
    let t = handle(s.clone(), text("Мої тренування"), Data::Nothing);
    assert_eq!(t.next, State::GymTrainingMenu { phone_number: phone() });
    let t = handle(s.clone(), text("Моє харчування"), Data::Nothing);
    assert_eq!(t.next, State::DietMenu { phone_number: phone() });
    let t = handle(s.clone(), text("Мої дані"), Data::Nothing);
    assert_eq!(t.next, State::DataMenu { phone_number: phone() });
}

#[test]
fn training_menu_add_asks_for_contraindications() {
    let s = State::HomeTrainingMenu { phone_number: phone() };
    let t = handle(s, text("Додати тренування"), Data::Nothing);
    assert_eq!(
        t.next,
        State::AddingTraining {
            phone_number: phone(),
            kind: TrainingKind::Home
        }
    );
    assert_eq!(
        t.replies,
        vec![Reply::AddTrainingTitle, Reply::AskContraindicationsTraining]
    );
}

#[test]
fn training_generation_saves_and_reopens_menu() {
    let s = State::AddingTraining {
        phone_number: phone(),
        kind: TrainingKind::Gym,
    };
    let q = query_for(&s, &text("болить спина"));
    assert_eq!(
        q,
        Query::GenerateTraining {
            phone_number: phone(),
            kind: TrainingKind::Gym
        }
    );
    let t = handle(s, text("болить спина"), Data::Generated("план".to_string()));
    assert_eq!(t.next, State::GymTrainingMenu { phone_number: phone() });
    assert_eq!(t.replies, vec![Reply::TrainingAdded("план".to_string())]);
    assert_eq!(
        t.writes,
        vec![Write::SaveTraining {
            phone_number: phone(),
            kind: TrainingKind::Gym,
            content: "план".to_string()
        }]
    );
}

#[test]
fn generation_failure_keeps_state_and_writes_nothing() {
    let s = State::AddingTraining {
        phone_number: phone(),
        kind: TrainingKind::Home,
    };
    let t = handle(s.clone(), text("."), Data::Failed);
    assert_eq!(t.next, s);
    assert_eq!(t.replies, vec![Reply::ServiceFailed]);
    assert!(t.writes.is_empty());
}

#[test]
fn show_and_delete_training_stay_in_their_menu() {
    let s = State::GymTrainingMenu { phone_number: phone() };
    let t = handle(
        s.clone(),
        text("Показати тренування"),
        Data::Plan(Some("план".to_string())),
    );
    assert_eq!(t.next, s);
    assert_eq!(
        t.replies,
        vec![
            Reply::ShowTrainingsTitle,
            Reply::TrainingShown("план".to_string())
        ]
    );
    let t = handle(s.clone(), text("Показати тренування"), Data::Plan(None));
    assert_eq!(t.replies, vec![Reply::ShowTrainingsTitle, Reply::NoTrainingYet]);
    let t = handle(s.clone(), text("Видалити тренування"), Data::Deleted(true));
    assert_eq!(t.next, s);
    assert_eq!(t.replies, vec![Reply::DeleteTrainingTitle, Reply::TrainingDeleted]);
    let t = handle(s.clone(), text("Видалити тренування"), Data::Deleted(false));
    assert_eq!(
        t.replies,
        vec![Reply::DeleteTrainingTitle, Reply::TrainingAlreadyAbsent]
    );
}

#[test]
fn diet_flow_mirrors_trainings() {
    let s = State::DietMenu { phone_number: phone() };
    let t = handle(s.clone(), text("Додати дієту"), Data::Nothing);
    assert_eq!(t.next, State::AddingDiet { phone_number: phone() });
    let t = handle(
        State::AddingDiet { phone_number: phone() },
        text("."),
        Data::Generated("дієта".to_string()),
    );
    assert_eq!(t.next, s);
    assert_eq!(t.replies, vec![Reply::DietAdded("дієта".to_string())]);
    assert_eq!(
        t.writes,
        vec![Write::SaveDiet {
            phone_number: phone(),
            content: "дієта".to_string()
        }]
    );
    let t = handle(s.clone(), text("Показати дієту"), Data::Plan(None));
    assert_eq!(t.replies, vec![Reply::ShowDietTitle, Reply::NoDietYet]);
    let t = handle(s.clone(), text("Видалити дієту"), Data::Deleted(true));
    assert_eq!(t.replies, vec![Reply::DeleteDietTitle, Reply::DietDeleted]);
    assert_eq!(t.next, s);
}

#[test]
fn data_menu_show_data_reports_figures() {
    let s = State::DataMenu { phone_number: phone() };
    let sizes = Sizes {
        chest: 108,
        waist: 105,
        hips: 123,
        hand_biceps: 39,
        leg_biceps: 72,
        calf: 45,
    };
    let q = query_for(&s, &text("Показати дані"));
    assert_eq!(q, Query::FetchProfileAndSize { phone_number: phone() });
    let t = handle(
        s.clone(),
        text("Показати дані"),
        Data::ProfileAndSize(profile(), Some(sizes)),
    );
    assert_eq!(t.next, s);
    assert_eq!(t.replies.len(), 2);
    assert_eq!(
        t.replies[0],
        Reply::DataReport {
            age: 30,
            height: 180,
            weight: 75,
            sizes
        }
    );
    let t = handle(
        s.clone(),
        text("Показати дані"),
        Data::ProfileAndSize(profile(), None),
    );
    assert_eq!(t.replies, vec![Reply::NoDataYet, Reply::BackToMain]);
    assert_eq!(t.next, s);
}

#[test]
fn data_menu_statistics_sends_chart() {
    let s = State::DataMenu { phone_number: phone() };
    let sizes = Sizes {
        chest: 108,
        waist: 105,
        hips: 123,
        hand_biceps: 39,
        leg_biceps: 72,
        calf: 45,
    };
    let q = query_for(&s, &text("Показати статистику"));
    assert_eq!(q, Query::FetchHistory { phone_number: phone() });
    let t = handle(
        s.clone(),
        text("Показати статистику"),
        Data::History(vec![sizes, sizes]),
    );
    assert_eq!(t.next, s);
    assert_eq!(t.replies, vec![Reply::Chart(vec![sizes, sizes])]);
}

/// Omitting a key from a data update persists nothing at all: the
/// transition carries zero writes and re-prompts.
#[test]
fn partial_data_update_writes_nothing() {
    let s = State::AwaitingDataUpdate { phone_number: phone() };
    let t = handle(s.clone(), text("вік: 21, зріст: 185"), Data::Nothing);
    assert_eq!(t.next, s);
    assert_eq!(t.replies, vec![Reply::InvalidHeightWeight]);
    assert!(t.writes.is_empty());
    let t = handle(s.clone(), text("зріст: 185, вага: 112"), Data::Nothing);
    assert_eq!(t.next, s);
    assert_eq!(t.replies, vec![Reply::InvalidAge]);
    assert!(t.writes.is_empty());
}

#[test]
fn full_data_update_writes_all_fields() {
    let s = State::AwaitingDataUpdate { phone_number: phone() };
    let t = handle(s, text("вік: 21, зріст: 185, вага: 112"), Data::Nothing);
    assert_eq!(t.next, State::DataMenu { phone_number: phone() });
    assert_eq!(t.replies, vec![Reply::DataUpdated]);
    assert_eq!(
        t.writes,
        vec![
            Write::SetAge {
                phone_number: phone(),
                age: 21
            },
            Write::SetHeightWeight {
                phone_number: phone(),
                height: 185,
                weight: 112
            }
        ]
    );
}

/// A size update missing any label persists zero rows and re-prompts.
#[test]
fn partial_size_update_writes_nothing() {
    let s = State::AwaitingSizeUpdate { phone_number: phone() };
    let t = handle(
        s.clone(),
        text("108 - груди, 105 - талія, 123 - бедра, 39 - біцепс руки, 72 - біцепс ноги"),
        Data::Nothing,
    );
    assert_eq!(t.next, s);
    assert_eq!(
        t.replies,
        vec![Reply::InvalidSizeField(
            fitness_bot::parse::SizeField::Calf
        )]
    );
    assert!(t.writes.is_empty());
}

#[test]
fn full_size_update_inserts_snapshot() {
    let s = State::AwaitingSizeUpdate { phone_number: phone() };
    let t = handle(
        s,
        text("108 - груди, 105 - талія, 123 - бедра, 39 - біцепс руки, 72 - біцепс ноги, 45 - ікра"),
        Data::Nothing,
    );
    assert_eq!(t.next, State::DataMenu { phone_number: phone() });
    assert_eq!(t.replies, vec![Reply::SizesUpdated]);
    assert_eq!(
        t.writes,
        vec![Write::InsertMeasurement {
            phone_number: phone(),
            sizes: Sizes {
                chest: 108,
                waist: 105,
                hips: 123,
                hand_biceps: 39,
                leg_biceps: 72,
                calf: 45
            }
        }]
    );
}

#[test]
fn cancel_works_from_any_state() {
    let states = [
        State::Start,
        State::AwaitingEmail { phone_number: phone() },
        State::DataMenu { phone_number: phone() },
        State::AddingDiet { phone_number: phone() },
    ];
    for s in states {
        let t = handle(s, Event::Command(Command::Cancel), Data::Nothing);
        assert_eq!(t.next, State::Start);
        assert_eq!(t.replies, vec![Reply::Cancelled]);
        assert!(t.writes.is_empty());
    }
}

#[test]
fn help_keeps_the_current_state() {
    let s = State::DietMenu { phone_number: phone() };
    let t = handle(s.clone(), Event::Command(Command::Help), Data::Nothing);
    assert_eq!(t.next, s);
    assert_eq!(t.replies, vec![Reply::CommandsHelp]);
}

#[test]
fn start_command_outside_start_is_rejected() {
    let s = State::MainMenu { phone_number: phone() };
    let t = handle(s.clone(), Event::Command(Command::Start), Data::Nothing);
    assert_eq!(t.next, s);
    assert_eq!(t.replies, vec![Reply::NotUnderstood]);
}

#[test]
fn stray_text_in_start_state_is_rejected() {
    let t = handle(State::Start, text("привіт"), Data::Nothing);
    assert_eq!(t.next, State::Start);
    assert_eq!(t.replies, vec![Reply::NotUnderstood]);
}

#[test]
fn message_without_text_in_menus_is_ignored() {
    let s = State::MainMenu { phone_number: phone() };
    let t = handle(s.clone(), Event::Other, Data::Nothing);
    assert_eq!(t.next, s);
    assert!(t.replies.is_empty());
    assert!(t.writes.is_empty());
}

#[test]
fn gateway_failure_leaves_state_for_retry() {
    let s = State::DataMenu { phone_number: phone() };
    let t = handle(s.clone(), text("Показати дані"), Data::Failed);
    assert_eq!(t.next, s);
    assert_eq!(t.replies, vec![Reply::ServiceFailed]);
    assert!(t.writes.is_empty());
}

#[test]
fn queries_for_plain_navigation_are_empty() {
    let s = State::MainMenu { phone_number: phone() };
    assert_eq!(query_for(&s, &text("Мої дані")), Query::Nothing);
    assert_eq!(
        query_for(
            &State::DietMenu { phone_number: phone() },
            &text("Показати дієту")
        ),
        Query::FetchDiet { phone_number: phone() }
    );
    assert_eq!(
        query_for(
            &State::HomeTrainingMenu { phone_number: phone() },
            &text("Видалити тренування")
        ),
        Query::DeleteTraining {
            phone_number: phone(),
            kind: TrainingKind::Home
        }
    );
}

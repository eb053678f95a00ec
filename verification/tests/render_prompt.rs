use fitness_bot::client::OpenAiClient;
use fitness_bot::commands::{
    Command, DataCommands, DietCommands, MenuCommands, TrainingsCommands,
};
use fitness_bot::keyboard::make_keyboard;
use fitness_bot::machine::Reply;
use fitness_bot::parse::SizeField;
use fitness_bot::profile::{Sizes, TrainingKind, Users};
use fitness_bot::prompt::{diet_prompt, format_prompt, training_prompt};
use fitness_bot::render::{measurement_series, reply_keyboard, reply_text};

fn user() -> Users {
    Users {
        telegram_id: 42,
        name: "Олег".to_string(),
        email: Some("user@example.com".to_string()),
        phone_number: "+380501112233".to_string(),
        height: Some(180),
        weight: Some(75),
        age: Some(30),
    }
}

/// A lone dot as contraindications builds the same prompt as no text.
#[test]
fn dot_prompt_equals_none_prompt() {
    let a = format_prompt(Some("."), "з умовами: ", "без умов.", &user());
    let b = format_prompt(None, "з умовами: ", "без умов.", &user());
    assert_eq!(a, b);
}

#[test]
fn prompt_with_contraindications_embeds_them() {
    let p = format_prompt(Some("болить спина"), "з умовами: ", "без умов.", &user());
    assert_eq!(p, "з умовами: болить спина Вік: 30 Зріст: 180 Вага: 75");
}

#[test]
fn prompt_without_contraindications_uses_short_prefix() {
    let p = format_prompt(None, "з умовами: ", "без умов.", &user());
    assert_eq!(p, "без умов. Вік: 30 Зріст: 180 Вага: 75");
}

#[test]
fn prompt_renders_absent_fields() {
    let mut u = user();
    u.age = None;
    let p = format_prompt(None, "а: ", "б.", &u);
    assert_eq!(p, "б. Вік: None Зріст: 180 Вага: 75");
}

#[test]
fn training_prompts_differ_by_kind() {
    let home = training_prompt(TrainingKind::Home, Some("."), &user());
    let gym = training_prompt(TrainingKind::Gym, Some("."), &user());
    assert_eq!(
        home,
        "Зроби мені програму домашніх тренувань. Вік: 30 Зріст: 180 Вага: 75"
    );
    assert_eq!(
        gym,
        "Зроби мені програму тренувань у залі. Вік: 30 Зріст: 180 Вага: 75"
    );
}

#[test]
fn diet_prompt_embeds_contraindications() {
    let p = diet_prompt(Some("алергія на горіхи"), &user());
    assert_eq!(
        p,
        "Зроби мені програму харчування, врахуй такі протипоказання: алергія на горіхи Вік: 30 Зріст: 180 Вага: 75"
    );
}

#[test]
fn keyboard_is_one_single_row() {
    let k = make_keyboard(vec!["а".to_string(), "б".to_string(), "в".to_string()]);
    assert_eq!(k.rows.len(), 1);
    assert_eq!(k.rows[0], vec!["а", "б", "в"]);
}

#[test]
fn labels_round_trip_through_parsing() {
    for c in [
        MenuCommands::MyHomeTrainings,
        MenuCommands::MyGymTrainings,
        MenuCommands::MyDiet,
        MenuCommands::Data,
        MenuCommands::GoBack,
    ] {
        assert_eq!(MenuCommands::from_label(&c.label()), c);
    }
    for c in [
        TrainingsCommands::AddTraining,
        TrainingsCommands::DeleteTraining,
        TrainingsCommands::ShowTrainings,
        TrainingsCommands::GoBack,
    ] {
        assert_eq!(TrainingsCommands::from_label(&c.label()), c);
    }
    for c in [
        DietCommands::AddDiet,
        DietCommands::DeleteDiet,
        DietCommands::ShowDiet,
        DietCommands::GoBack,
    ] {
        assert_eq!(DietCommands::from_label(&c.label()), c);
    }
    for c in [
        DataCommands::UpdateData,
        DataCommands::UpdateSize,
        DataCommands::ShowData,
        DataCommands::ShowStatistics,
        DataCommands::GoBack,
    ] {
        assert_eq!(DataCommands::from_label(&c.label()), c);
    }
}

#[test]
fn unknown_labels_parse_as_unrecognized() {
    assert_eq!(
        MenuCommands::from_label("щось інше"),
        MenuCommands::Unrecognized
    );
    assert_eq!(
        TrainingsCommands::from_label(""),
        TrainingsCommands::Unrecognized
    );
    assert_eq!(
        DietCommands::from_label("Додати тренування"),
        DietCommands::Unrecognized
    );
    assert_eq!(
        DataCommands::from_label("на головну"),
        DataCommands::Unrecognized
    );
}

#[test]
fn from_string_matches_from_label() {
    assert_eq!(
        MenuCommands::from("Мої дані".to_string()),
        MenuCommands::Data
    );
    assert_eq!(
        TrainingsCommands::from("Додати тренування".to_string()),
        TrainingsCommands::AddTraining
    );
    assert_eq!(
        DietCommands::from("Показати дієту".to_string()),
        DietCommands::ShowDiet
    );
    assert_eq!(
        DataCommands::from("Оновити розміри".to_string()),
        DataCommands::UpdateSize
    );
}

#[test]
fn reply_wording_matches_the_bot() {
    assert_eq!(reply_text(&Reply::InvalidAge), "Вік не валідний!");
    assert_eq!(reply_text(&Reply::InvalidEmail), "Пошта не валідна!");
    assert_eq!(reply_text(&Reply::Cancelled), "Cancelling the dialogue.");
    assert_eq!(
        reply_text(&Reply::TrainingAdded("план".to_string())),
        "Тренування додано! \n\n А ось і воно: \n\n план"
    );
    assert_eq!(
        reply_text(&Reply::DietShown("дієта".to_string())),
        "Ось твоя дієта: \n\n дієта"
    );
    assert_eq!(
        reply_text(&Reply::InvalidSizeField(SizeField::Waist)),
        "Талія не валідна!"
    );
    assert_eq!(
        reply_text(&Reply::OpenedMenu(MenuCommands::MyDiet)),
        "Моє харчування"
    );
}

#[test]
fn data_report_renders_every_figure() {
    let r = Reply::DataReport {
        age: 30,
        height: 180,
        weight: 75,
        sizes: Sizes {
            chest: 108,
            waist: 105,
            hips: 123,
            hand_biceps: 39,
            leg_biceps: 72,
            calf: 45,
        },
    };
    assert_eq!(
        reply_text(&r),
        "Ваші дані: \n\nВік: 30 \nЗріст: 180 \nВага: 75 \nРозмір грудей: 108 \nРозмір талії: 105 \nРозмір бедер: 123 \nРозмір біцепсу руки: 39 \nРозмір біцепсу ноги: 72 \nРозмір ікри: 45"
    );
}

#[test]
fn reply_keyboards_carry_their_menu() {
    let k = reply_keyboard(&Reply::BackToMain).unwrap();
    assert_eq!(
        k.rows[0],
        vec![
            "Мої тренування",
            "Мої домашні тренування",
            "Моє харчування",
            "Мої дані"
        ]
    );
    let k = reply_keyboard(&Reply::OpenedMenu(MenuCommands::MyHomeTrainings)).unwrap();
    assert_eq!(
        k.rows[0],
        vec![
            "Додати тренування",
            "Видалити тренування",
            "Показати тренування",
            "На головну"
        ]
    );
    let k = reply_keyboard(&Reply::DataUpdated).unwrap();
    assert_eq!(k.rows[0].len(), 5);
    assert!(reply_keyboard(&Reply::InvalidAge).is_none());
    assert!(reply_keyboard(&Reply::Welcome).is_some());
}

#[test]
fn measurement_series_extracts_six_rows() {
    let a = Sizes {
        chest: 1,
        waist: 2,
        hips: 3,
        hand_biceps: 4,
        leg_biceps: 5,
        calf: 6,
    };
    let b = Sizes {
        chest: 7,
        waist: 8,
        hips: 9,
        hand_biceps: 10,
        leg_biceps: 11,
        calf: 12,
    };
    let series = measurement_series(&vec![a, b]);
    assert_eq!(series.len(), 6);
    assert_eq!(series[0], vec![1, 7]);
    assert_eq!(series[1], vec![2, 8]);
    assert_eq!(series[2], vec![3, 9]);
    assert_eq!(series[3], vec![4, 10]);
    assert_eq!(series[4], vec![5, 11]);
    assert_eq!(series[5], vec![6, 12]);
    let empty = measurement_series(&Vec::new());
    assert_eq!(empty.len(), 6);
    assert!(empty.iter().all(|s| s.is_empty()));
}

#[test]
fn client_holds_its_key() {
    let c = OpenAiClient::new("SECRET-REDACTED".to_string());
    assert_eq!(c.api_key, "SECRET-REDACTED");
}

#[test]
fn commands_are_distinct() {
    assert_ne!(Command::Help, Command::Start);
    assert_ne!(Command::Start, Command::Cancel);
}

//! Rendering of semantic replies: the wording of each message, the
//! keyboard that accompanies it, and the series extracted from a
//! measurement history for the progress chart.

use vstd::prelude::*;
use vstd::string::StringExecFns;
use crate::commands::{
    DataCommands, DietCommands, MenuCommands, TrainingsCommands, spec_data_label,
    spec_diet_label, spec_menu_label, spec_trainings_label,
};
use crate::keyboard::{KeyboardLayout, make_keyboard};
use crate::machine::Reply;
use crate::parse::SizeField;
use crate::profile::Sizes;
use crate::text::{spec_int_str, views_of, i32_to_string};

verus! {

/// The wording of a reply; an image-only reply has no text.
pub open spec fn spec_reply_text(r: Reply) -> Seq<char> {
    match r {
        Reply::CommandsHelp =>
            "These commands are supported:\n/help — display this text.\n/start — start the purchase procedure.\n/cancel — cancel the purchase procedure."@,
        Reply::Welcome =>
            "Привіт! Я бот для тренувань! Тут ти можешь зробити для себе тренування у залі, тренування удома, та дієту, спеціально підібрану для тебе! Будь-ласка, відправ спочатку свій номер телефона а потім пошту, для реєстрації або перевірки чи ти вже з нами!"@,
        Reply::Cancelled => "Cancelling the dialogue."@,
        Reply::NotUnderstood => "Я тебе не розумію, подивись будь-ласка на команду /help"@,
        Reply::ServiceFailed => "Сталася помилка, спробуй будь-ласка ще раз!"@,
        Reply::AlreadyRegistered => "Ти вже з нами!"@,
        Reply::NewUserAskEmail => "Ти новий користувач! Дякую за номер, тепер віправ свою пошту!"@,
        Reply::ThanksEmailAskAge => "Дякую за пошту! Тепер відправ свій вік!"@,
        Reply::InvalidEmail => "Пошта не валідна!"@,
        Reply::NeedEmail => "На жаль, я не зможу зареєструвати тебе без пошти!"@,
        Reply::ThanksAgeAskHeightWeight =>
            "Дякую за вік! Тепер віправ свій зріст та вагу у форматі: зріст вага! Приклад: 185 90"@,
        Reply::InvalidAge => "Вік не валідний!"@,
        Reply::ThanksRegistered =>
            "Дякую за висоту та вагу! Тепер я зможу розрахувати тренування та дієту для тебе! Також, дякую за реєстрацію)"@,
        Reply::InvalidHeightWeight => "Висота та вага не валідні!"@,
        Reply::InvalidHeight => "Висота не валідна!"@,
        Reply::InvalidWeight => "Вага не валідна!"@,
        Reply::OpenedMenu(m) => spec_menu_label(m),
        Reply::BackToMain => "На головну"@,
        Reply::AddTrainingTitle => "Додати тренування"@,
        Reply::AskContraindicationsTraining =>
            "Напишіть будь-ласка, чи є у вас якісь протипоказання, якщо ні, просто відправте крапку. \n\nТакож, потрібно буде трохи зачекати, генерую для тебе тренування)"@,
        Reply::DeleteTrainingTitle => "Видалити тренування"@,
        Reply::TrainingDeleted => "Тренування видалено!"@,
        Reply::TrainingAlreadyAbsent => "Тренування вже відсутнє!"@,
        Reply::ShowTrainingsTitle => "Показати тренування"@,
        Reply::TrainingShown(c) => "Ось твоє тренування: \n\n "@ + c@,
        Reply::NoTrainingYet => "Тренування відсутнє!"@,
        Reply::TrainingAdded(c) => "Тренування додано! \n\n А ось і воно: \n\n "@ + c@,
        Reply::AddDietTitle => "Додати дієту"@,
        Reply::AskContraindicationsDiet =>
            "Напишіть будь-ласка, чи є у вас якісь протипоказання, якщо ні, просто відправте крапку. \n\nТакож, потрібно буде трохи зачекати, генерую для тебе дієту)"@,
        Reply::DeleteDietTitle => "Видалити дієту"@,
        Reply::DietDeleted => "Дієта видалена!"@,
        Reply::ShowDietTitle => "Показати дієту"@,
        Reply::DietShown(c) => "Ось твоя дієта: \n\n "@ + c@,
        Reply::NoDietYet => "Ти ще не додав дієту!"@,
        Reply::DietAdded(c) => "Дієта додана! \n\n А ось і воно: \n\n "@ + c@,
        Reply::UpdateDataTitle => "Оновити раніше записані дані"@,
        Reply::AskDataUpdate =>
            "Хочете оновити дані? \n\nДобре, тільки скидуйте у такому вигляді: вік: 21, зріст: 185, вага: 112"@,
        Reply::UpdateSizeTitle => "Оновити розмір м'язів"@,
        Reply::AskSizeUpdate =>
            "Хочете оновити розмір м'язів? \n\nДобре, тільки скидуйте у такому вигляді: 108 - груди, 105 - талія, 123 - бедра, 39 - біцепс руки, 72 - біцепс ноги, 45 - ікра"@,
        Reply::DataUpdated => "Дані оновлено!"@,
        Reply::SizesUpdated => "Розмір м'язів оновлено!"@,
        Reply::InvalidSizeField(f) => match f {
            SizeField::Chest => "Груди не валідні!"@,
            SizeField::Waist => "Талія не валідна!"@,
            SizeField::Hips => "Бедра не валідні!"@,
            SizeField::HandBiceps => "Біцепс руки не валідний!"@,
            SizeField::LegBiceps => "Біцепс ноги не валідний!"@,
            SizeField::Calf => "Ікра не валідна!"@,
        },
        Reply::NeedData => "На жаль, я не зможу зареєструвати тебе без даних!"@,
        Reply::DataReport { age, height, weight, sizes } =>
            "Ваші дані: \n\nВік: "@ + spec_int_str(age as int) + " \nЗріст: "@ + spec_int_str(
                height as int,
            ) + " \nВага: "@ + spec_int_str(weight as int) + " \nРозмір грудей: "@
                + spec_int_str(sizes.chest as int) + " \nРозмір талії: "@ + spec_int_str(
                sizes.waist as int,
            ) + " \nРозмір бедер: "@ + spec_int_str(sizes.hips as int)
                + " \nРозмір біцепсу руки: "@ + spec_int_str(sizes.hand_biceps as int)
                + " \nРозмір біцепсу ноги: "@ + spec_int_str(sizes.leg_biceps as int)
                + " \nРозмір ікри: "@ + spec_int_str(sizes.calf as int),
        Reply::NoDataYet => "Ви ще не вводили дані!"@,
        Reply::Chart(_) => ""@,
    }
}

/// Renders the wording of a reply.
pub fn reply_text(r: &Reply) -> (s: String)
    ensures
        s@ == spec_reply_text(*r),
{
    match r {
        Reply::CommandsHelp =>
            "These commands are supported:\n/help — display this text.\n/start — start the purchase procedure.\n/cancel — cancel the purchase procedure.".to_owned(),
        Reply::Welcome =>
            "Привіт! Я бот для тренувань! Тут ти можешь зробити для себе тренування у залі, тренування удома, та дієту, спеціально підібрану для тебе! Будь-ласка, відправ спочатку свій номер телефона а потім пошту, для реєстрації або перевірки чи ти вже з нами!".to_owned(),
        Reply::Cancelled => "Cancelling the dialogue.".to_owned(),
        Reply::NotUnderstood => "Я тебе не розумію, подивись будь-ласка на команду /help".to_owned(),
        Reply::ServiceFailed => "Сталася помилка, спробуй будь-ласка ще раз!".to_owned(),
        Reply::AlreadyRegistered => "Ти вже з нами!".to_owned(),
        Reply::NewUserAskEmail =>
            "Ти новий користувач! Дякую за номер, тепер віправ свою пошту!".to_owned(),
        Reply::ThanksEmailAskAge => "Дякую за пошту! Тепер відправ свій вік!".to_owned(),
        Reply::InvalidEmail => "Пошта не валідна!".to_owned(),
        Reply::NeedEmail => "На жаль, я не зможу зареєструвати тебе без пошти!".to_owned(),
        Reply::ThanksAgeAskHeightWeight =>
            "Дякую за вік! Тепер віправ свій зріст та вагу у форматі: зріст вага! Приклад: 185 90".to_owned(),
        Reply::InvalidAge => "Вік не валідний!".to_owned(),
        Reply::ThanksRegistered =>
            "Дякую за висоту та вагу! Тепер я зможу розрахувати тренування та дієту для тебе! Також, дякую за реєстрацію)".to_owned(),
        Reply::InvalidHeightWeight => "Висота та вага не валідні!".to_owned(),
        Reply::InvalidHeight => "Висота не валідна!".to_owned(),
        Reply::InvalidWeight => "Вага не валідна!".to_owned(),
        Reply::OpenedMenu(m) => m.label(),
        Reply::BackToMain => "На головну".to_owned(),
        Reply::AddTrainingTitle => "Додати тренування".to_owned(),
        Reply::AskContraindicationsTraining =>
            "Напишіть будь-ласка, чи є у вас якісь протипоказання, якщо ні, просто відправте крапку. \n\nТакож, потрібно буде трохи зачекати, генерую для тебе тренування)".to_owned(),
        Reply::DeleteTrainingTitle => "Видалити тренування".to_owned(),
        Reply::TrainingDeleted => "Тренування видалено!".to_owned(),
        Reply::TrainingAlreadyAbsent => "Тренування вже відсутнє!".to_owned(),
        Reply::ShowTrainingsTitle => "Показати тренування".to_owned(),
        Reply::TrainingShown(c) => {
            let mut s = String::from_str("Ось твоє тренування: \n\n ");
            s.append(c.as_str());
            s
        },
        Reply::NoTrainingYet => "Тренування відсутнє!".to_owned(),
        Reply::TrainingAdded(c) => {
            let mut s = String::from_str("Тренування додано! \n\n А ось і воно: \n\n ");
            s.append(c.as_str());
            s
        },
        Reply::AddDietTitle => "Додати дієту".to_owned(),
        Reply::AskContraindicationsDiet =>
            "Напишіть будь-ласка, чи є у вас якісь протипоказання, якщо ні, просто відправте крапку. \n\nТакож, потрібно буде трохи зачекати, генерую для тебе дієту)".to_owned(),
        Reply::DeleteDietTitle => "Видалити дієту".to_owned(),
        Reply::DietDeleted => "Дієта видалена!".to_owned(),
        Reply::ShowDietTitle => "Показати дієту".to_owned(),
        Reply::DietShown(c) => {
            let mut s = String::from_str("Ось твоя дієта: \n\n ");
            s.append(c.as_str());
            s
        },
        Reply::NoDietYet => "Ти ще не додав дієту!".to_owned(),
        Reply::DietAdded(c) => {
            let mut s = String::from_str("Дієта додана! \n\n А ось і воно: \n\n ");
            s.append(c.as_str());
            s
        },
        Reply::UpdateDataTitle => "Оновити раніше записані дані".to_owned(),
        Reply::AskDataUpdate =>
            "Хочете оновити дані? \n\nДобре, тільки скидуйте у такому вигляді: вік: 21, зріст: 185, вага: 112".to_owned(),
        Reply::UpdateSizeTitle => "Оновити розмір м'язів".to_owned(),
        Reply::AskSizeUpdate =>
            "Хочете оновити розмір м'язів? \n\nДобре, тільки скидуйте у такому вигляді: 108 - груди, 105 - талія, 123 - бедра, 39 - біцепс руки, 72 - біцепс ноги, 45 - ікра".to_owned(),
        Reply::DataUpdated => "Дані оновлено!".to_owned(),
        Reply::SizesUpdated => "Розмір м'язів оновлено!".to_owned(),
        Reply::InvalidSizeField(f) => match f {
            SizeField::Chest => "Груди не валідні!".to_owned(),
            SizeField::Waist => "Талія не валідна!".to_owned(),
            SizeField::Hips => "Бедра не валідні!".to_owned(),
            SizeField::HandBiceps => "Біцепс руки не валідний!".to_owned(),
            SizeField::LegBiceps => "Біцепс ноги не валідний!".to_owned(),
            SizeField::Calf => "Ікра не валідна!".to_owned(),
        },
        Reply::NeedData => "На жаль, я не зможу зареєструвати тебе без даних!".to_owned(),
        Reply::DataReport { age, height, weight, sizes } => {
            let mut s = String::from_str("Ваші дані: \n\nВік: ");
            s.append(i32_to_string(*age).as_str());
            s.append(" \nЗріст: ");
            s.append(i32_to_string(*height).as_str());
            s.append(" \nВага: ");
            s.append(i32_to_string(*weight).as_str());
            s.append(" \nРозмір грудей: ");
            s.append(i32_to_string(sizes.chest).as_str());
            s.append(" \nРозмір талії: ");
            s.append(i32_to_string(sizes.waist).as_str());
            s.append(" \nРозмір бедер: ");
            s.append(i32_to_string(sizes.hips).as_str());
            s.append(" \nРозмір біцепсу руки: ");
            s.append(i32_to_string(sizes.hand_biceps).as_str());
            s.append(" \nРозмір біцепсу ноги: ");
            s.append(i32_to_string(sizes.leg_biceps).as_str());
            s.append(" \nРозмір ікри: ");
            s.append(i32_to_string(sizes.calf).as_str());
            s
        },
        Reply::NoDataYet => "Ви ще не вводили дані!".to_owned(),
        Reply::Chart(_) => "".to_owned(),
    }
}

/// The labels of the keyboard offered right after registration.
pub open spec fn spec_register_labels() -> Seq<Seq<char>> {
    seq![
        spec_menu_label(MenuCommands::MyGymTrainings),
        spec_menu_label(MenuCommands::MyHomeTrainings),
        spec_menu_label(MenuCommands::MyDiet),
    ]
}

/// The labels of the main-menu keyboard.
pub open spec fn spec_main_labels() -> Seq<Seq<char>> {
    seq![
        spec_menu_label(MenuCommands::MyGymTrainings),
        spec_menu_label(MenuCommands::MyHomeTrainings),
        spec_menu_label(MenuCommands::MyDiet),
        spec_menu_label(MenuCommands::Data),
    ]
}

/// The labels of the training-menu keyboard.
pub open spec fn spec_trainings_labels() -> Seq<Seq<char>> {
    seq![
        spec_trainings_label(TrainingsCommands::AddTraining),
        spec_trainings_label(TrainingsCommands::DeleteTraining),
        spec_trainings_label(TrainingsCommands::ShowTrainings),
        spec_trainings_label(TrainingsCommands::GoBack),
    ]
}

/// The labels of the diet-menu keyboard.
pub open spec fn spec_diet_labels() -> Seq<Seq<char>> {
    seq![
        spec_diet_label(DietCommands::AddDiet),
        spec_diet_label(DietCommands::DeleteDiet),
        spec_diet_label(DietCommands::ShowDiet),
        spec_diet_label(DietCommands::GoBack),
    ]
}

/// The labels of the data-menu keyboard.
pub open spec fn spec_data_labels() -> Seq<Seq<char>> {
    seq![
        spec_data_label(DataCommands::UpdateData),
        spec_data_label(DataCommands::UpdateSize),
        spec_data_label(DataCommands::ShowData),
        spec_data_label(DataCommands::ShowStatistics),
        spec_data_label(DataCommands::GoBack),
    ]
}

/// The button labels shown with a reply, where it carries a keyboard.
/// The welcome message's single button requests the user's contact.
pub open spec fn spec_reply_labels(r: Reply) -> Option<Seq<Seq<char>>> {
    match r {
        Reply::Welcome => Some(seq!["Відправити номер"@]),
        Reply::AlreadyRegistered => Some(spec_register_labels()),
        Reply::ThanksRegistered => Some(spec_register_labels()),
        Reply::OpenedMenu(m) => match m {
            MenuCommands::MyHomeTrainings => Some(spec_trainings_labels()),
            MenuCommands::MyGymTrainings => Some(spec_trainings_labels()),
            MenuCommands::MyDiet => Some(spec_diet_labels()),
            MenuCommands::Data => Some(spec_data_labels()),
            _ => Option::<Seq<Seq<char>>>::None,
        },
        Reply::BackToMain => Some(spec_main_labels()),
        Reply::TrainingAdded(_) => Some(spec_trainings_labels()),
        Reply::TrainingShown(_) => Some(spec_trainings_labels()),
        Reply::NoTrainingYet => Some(spec_trainings_labels()),
        Reply::TrainingDeleted => Some(spec_trainings_labels()),
        Reply::TrainingAlreadyAbsent => Some(spec_trainings_labels()),
        Reply::DietAdded(_) => Some(spec_diet_labels()),
        Reply::DietShown(_) => Some(spec_diet_labels()),
        Reply::NoDietYet => Some(spec_diet_labels()),
        Reply::DietDeleted => Some(spec_diet_labels()),
        Reply::DataUpdated => Some(spec_data_labels()),
        Reply::SizesUpdated => Some(spec_data_labels()),
        Reply::Chart(_) => Some(spec_data_labels()),
        _ => Option::<Seq<Seq<char>>>::None,
    }
}

fn register_keyboard() -> (k: KeyboardLayout)
    ensures
        k.rows@.len() == 1,
        views_of(k.rows@[0]@) == spec_register_labels(),
{
    let mut labels: Vec<String> = Vec::new();
    labels.push(MenuCommands::MyGymTrainings.label());
    labels.push(MenuCommands::MyHomeTrainings.label());
    labels.push(MenuCommands::MyDiet.label());
    proof {
        assert(views_of(labels@) =~= spec_register_labels());
    }
    make_keyboard(labels)
}

fn main_keyboard() -> (k: KeyboardLayout)
    ensures
        k.rows@.len() == 1,
        views_of(k.rows@[0]@) == spec_main_labels(),
{
    let mut labels: Vec<String> = Vec::new();
    labels.push(MenuCommands::MyGymTrainings.label());
    labels.push(MenuCommands::MyHomeTrainings.label());
    labels.push(MenuCommands::MyDiet.label());
    labels.push(MenuCommands::Data.label());
    proof {
        assert(views_of(labels@) =~= spec_main_labels());
    }
    make_keyboard(labels)
}

fn trainings_keyboard() -> (k: KeyboardLayout)
    ensures
        k.rows@.len() == 1,
        views_of(k.rows@[0]@) == spec_trainings_labels(),
{
    let mut labels: Vec<String> = Vec::new();
    labels.push(TrainingsCommands::AddTraining.label());
    labels.push(TrainingsCommands::DeleteTraining.label());
    labels.push(TrainingsCommands::ShowTrainings.label());
    labels.push(TrainingsCommands::GoBack.label());
    proof {
        assert(views_of(labels@) =~= spec_trainings_labels());
    }
    make_keyboard(labels)
}

fn diet_keyboard() -> (k: KeyboardLayout)
    ensures
        k.rows@.len() == 1,
        views_of(k.rows@[0]@) == spec_diet_labels(),
{
    let mut labels: Vec<String> = Vec::new();
    labels.push(DietCommands::AddDiet.label());
    labels.push(DietCommands::DeleteDiet.label());
    labels.push(DietCommands::ShowDiet.label());
    labels.push(DietCommands::GoBack.label());
    proof {
        assert(views_of(labels@) =~= spec_diet_labels());
    }
    make_keyboard(labels)
}

fn data_keyboard() -> (k: KeyboardLayout)
    ensures
        k.rows@.len() == 1,
        views_of(k.rows@[0]@) == spec_data_labels(),
{
    let mut labels: Vec<String> = Vec::new();
    labels.push(DataCommands::UpdateData.label());
    labels.push(DataCommands::UpdateSize.label());
    labels.push(DataCommands::ShowData.label());
    labels.push(DataCommands::ShowStatistics.label());
    labels.push(DataCommands::GoBack.label());
    proof {
        assert(views_of(labels@) =~= spec_data_labels());
    }
    make_keyboard(labels)
}

/// The keyboard sent with a reply, where it carries one.
pub fn reply_keyboard(r: &Reply) -> (k: Option<KeyboardLayout>)
    ensures
        match spec_reply_labels(*r) {
            Some(labels) => {
                &&& k matches Some(kb)
                &&& kb.rows@.len() == 1
                &&& views_of(kb.rows@[0]@) == labels
            },
            None => k is None,
        },
{
    match r {
        Reply::Welcome => {
            let mut labels: Vec<String> = Vec::new();
            labels.push("Відправити номер".to_owned());
            proof {
                assert(views_of(labels@) =~= seq!["Відправити номер"@]);
            }
            Some(make_keyboard(labels))
        },
        Reply::AlreadyRegistered => Some(register_keyboard()),
        Reply::ThanksRegistered => Some(register_keyboard()),
        Reply::OpenedMenu(m) => match m {
            MenuCommands::MyHomeTrainings => Some(trainings_keyboard()),
            MenuCommands::MyGymTrainings => Some(trainings_keyboard()),
            MenuCommands::MyDiet => Some(diet_keyboard()),
            MenuCommands::Data => Some(data_keyboard()),
            _ => None,
        },
        Reply::BackToMain => Some(main_keyboard()),
        Reply::TrainingAdded(_) => Some(trainings_keyboard()),
        Reply::TrainingShown(_) => Some(trainings_keyboard()),
        Reply::NoTrainingYet => Some(trainings_keyboard()),
        Reply::TrainingDeleted => Some(trainings_keyboard()),
        Reply::TrainingAlreadyAbsent => Some(trainings_keyboard()),
        Reply::DietAdded(_) => Some(diet_keyboard()),
        Reply::DietShown(_) => Some(diet_keyboard()),
        Reply::NoDietYet => Some(diet_keyboard()),
        Reply::DietDeleted => Some(diet_keyboard()),
        Reply::DataUpdated => Some(data_keyboard()),
        Reply::SizesUpdated => Some(data_keyboard()),
        Reply::Chart(_) => Some(data_keyboard()),
        _ => None,
    }
}

/// The six data series of the progress chart, one per measurement, each
/// holding that measurement's value for every snapshot in order:
/// chest, waist, hips, arm biceps, leg biceps, calf.
pub fn measurement_series(history: &Vec<Sizes>) -> (r: Vec<Vec<i32>>)
    ensures
        r@.len() == 6,
        forall|j: int| 0 <= j < 6 ==> r@[j]@.len() == history@.len(),
        forall|i: int|
            0 <= i < history@.len() ==> {
                &&& r@[0]@[i] == history@[i].chest
                &&& r@[1]@[i] == history@[i].waist
                &&& r@[2]@[i] == history@[i].hips
                &&& r@[3]@[i] == history@[i].hand_biceps
                &&& r@[4]@[i] == history@[i].leg_biceps
                &&& r@[5]@[i] == history@[i].calf
            },
{
    let mut chest: Vec<i32> = Vec::new();
    let mut waist: Vec<i32> = Vec::new();
    let mut hips: Vec<i32> = Vec::new();
    let mut hand_biceps: Vec<i32> = Vec::new();
    let mut leg_biceps: Vec<i32> = Vec::new();
    let mut calf: Vec<i32> = Vec::new();
    let mut i: usize = 0;
    while i < history.len()
        invariant
            i <= history@.len(),
            chest@.len() == i,
            waist@.len() == i,
            hips@.len() == i,
            hand_biceps@.len() == i,
            leg_biceps@.len() == i,
            calf@.len() == i,
            forall|t: int|
                0 <= t < i ==> {
                    &&& chest@[t] == history@[t].chest
                    &&& waist@[t] == history@[t].waist
                    &&& hips@[t] == history@[t].hips
                    &&& hand_biceps@[t] == history@[t].hand_biceps
                    &&& leg_biceps@[t] == history@[t].leg_biceps
                    &&& calf@[t] == history@[t].calf
                },
        decreases history@.len() - i,
    {
        let sz = &history[i];
        chest.push(sz.chest);
        waist.push(sz.waist);
        hips.push(sz.hips);
        hand_biceps.push(sz.hand_biceps);
        leg_biceps.push(sz.leg_biceps);
        calf.push(sz.calf);
        i = i + 1;
    }
    let mut r: Vec<Vec<i32>> = Vec::new();
    r.push(chest);
    r.push(waist);
    r.push(hips);
    r.push(hand_biceps);
    r.push(leg_biceps);
    r.push(calf);
    r
}

} // verus!

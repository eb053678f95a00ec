//! The slash commands and the button labels of every menu.
//!
//! Each menu has its own closed command set.  Button text coming from the
//! user is parsed with an explicit `Unrecognized` fallback, so unknown
//! labels are never mistaken for a real command.

use vstd::prelude::*;
use crate::text::str_eq;

verus! {

/// The slash commands the bot understands.
#[derive(Clone, Copy, Debug, PartialEq, Eq, Structural)]
pub enum Command {
    /// `/help`: list the commands.
    Help,
    /// `/start`: begin registration.
    Start,
    /// `/cancel`: abandon the current flow.
    Cancel,
}

/// The buttons of the main menu.
#[derive(Clone, Copy, Debug, PartialEq, Eq, Structural)]
pub enum MenuCommands {
    MyHomeTrainings,
    MyGymTrainings,
    MyDiet,
    Data,
    GoBack,
    Unrecognized,
}

/// The buttons of the two training menus.
#[derive(Clone, Copy, Debug, PartialEq, Eq, Structural)]
pub enum TrainingsCommands {
    AddTraining,
    DeleteTraining,
    ShowTrainings,
    GoBack,
    Unrecognized,
}

/// The buttons of the diet menu.
#[derive(Clone, Copy, Debug, PartialEq, Eq, Structural)]
pub enum DietCommands {
    AddDiet,
    DeleteDiet,
    ShowDiet,
    GoBack,
    Unrecognized,
}

/// The buttons of the data menu.
#[derive(Clone, Copy, Debug, PartialEq, Eq, Structural)]
pub enum DataCommands {
    UpdateData,
    UpdateSize,
    ShowData,
    ShowStatistics,
    GoBack,
    Unrecognized,
}

/// The button text of a main-menu command; empty for `Unrecognized`.
pub open spec fn spec_menu_label(c: MenuCommands) -> Seq<char> {
    match c {
        MenuCommands::MyHomeTrainings => "Мої домашні тренування"@,
        MenuCommands::MyGymTrainings => "Мої тренування"@,
        MenuCommands::MyDiet => "Моє харчування"@,
        MenuCommands::Data => "Мої дані"@,
        MenuCommands::GoBack => "На головну"@,
        MenuCommands::Unrecognized => ""@,
    }
}

/// The main-menu command a button text denotes.
pub open spec fn spec_menu_from(s: Seq<char>) -> MenuCommands {
    if s == spec_menu_label(MenuCommands::MyHomeTrainings) {
        MenuCommands::MyHomeTrainings
    } else if s == spec_menu_label(MenuCommands::MyGymTrainings) {
        MenuCommands::MyGymTrainings
    } else if s == spec_menu_label(MenuCommands::MyDiet) {
        MenuCommands::MyDiet
    } else if s == spec_menu_label(MenuCommands::Data) {
        MenuCommands::Data
    } else if s == spec_menu_label(MenuCommands::GoBack) {
        MenuCommands::GoBack
    } else {
        MenuCommands::Unrecognized
    }
}

impl MenuCommands {
    /// The text shown on this button.
    pub fn label(&self) -> (r: String)
        ensures
            r@ == spec_menu_label(*self),
    {
        match self {
            MenuCommands::MyHomeTrainings => "Мої домашні тренування".to_owned(),
            MenuCommands::MyGymTrainings => "Мої тренування".to_owned(),
            MenuCommands::MyDiet => "Моє харчування".to_owned(),
            MenuCommands::Data => "Мої дані".to_owned(),
            MenuCommands::GoBack => "На головну".to_owned(),
            MenuCommands::Unrecognized => "".to_owned(),
        }
    }

    /// Parses a button text; unknown text maps to `Unrecognized`.
    pub fn from_label(s: &str) -> (r: MenuCommands)
        ensures
            r == spec_menu_from(s@),
    {
        if str_eq(s, "Мої домашні тренування") {
            MenuCommands::MyHomeTrainings
        } else if str_eq(s, "Мої тренування") {
            MenuCommands::MyGymTrainings
        } else if str_eq(s, "Моє харчування") {
            MenuCommands::MyDiet
        } else if str_eq(s, "Мої дані") {
            MenuCommands::Data
        } else if str_eq(s, "На головну") {
            MenuCommands::GoBack
        } else {
            MenuCommands::Unrecognized
        }
    }
}

impl From<String> for MenuCommands {
    fn from(s: String) -> (r: MenuCommands) {
        MenuCommands::from_label(s.as_str())
    }
}

impl vstd::std_specs::convert::FromSpecImpl<String> for MenuCommands {
    open spec fn obeys_from_spec() -> bool {
        true
    }

    open spec fn from_spec(s: String) -> MenuCommands {
        spec_menu_from(s@)
    }
}

/// The button text of a training-menu command; empty for `Unrecognized`.
pub open spec fn spec_trainings_label(c: TrainingsCommands) -> Seq<char> {
    match c {
        TrainingsCommands::AddTraining => "Додати тренування"@,
        TrainingsCommands::DeleteTraining => "Видалити тренування"@,
        TrainingsCommands::ShowTrainings => "Показати тренування"@,
        TrainingsCommands::GoBack => "На головну"@,
        TrainingsCommands::Unrecognized => ""@,
    }
}

/// The training-menu command a button text denotes.
pub open spec fn spec_trainings_from(s: Seq<char>) -> TrainingsCommands {
    if s == spec_trainings_label(TrainingsCommands::AddTraining) {
        TrainingsCommands::AddTraining
    } else if s == spec_trainings_label(TrainingsCommands::DeleteTraining) {
        TrainingsCommands::DeleteTraining
    } else if s == spec_trainings_label(TrainingsCommands::ShowTrainings) {
        TrainingsCommands::ShowTrainings
    } else if s == spec_trainings_label(TrainingsCommands::GoBack) {
        TrainingsCommands::GoBack
    } else {
        TrainingsCommands::Unrecognized
    }
}

impl TrainingsCommands {
    /// The text shown on this button.
    pub fn label(&self) -> (r: String)
        ensures
            r@ == spec_trainings_label(*self),
    {
        match self {
            TrainingsCommands::AddTraining => "Додати тренування".to_owned(),
            TrainingsCommands::DeleteTraining => "Видалити тренування".to_owned(),
            TrainingsCommands::ShowTrainings => "Показати тренування".to_owned(),
            TrainingsCommands::GoBack => "На головну".to_owned(),
            TrainingsCommands::Unrecognized => "".to_owned(),
        }
    }

    /// Parses a button text; unknown text maps to `Unrecognized`.
    pub fn from_label(s: &str) -> (r: TrainingsCommands)
        ensures
            r == spec_trainings_from(s@),
    {
        if str_eq(s, "Додати тренування") {
            TrainingsCommands::AddTraining
        } else if str_eq(s, "Видалити тренування") {
            TrainingsCommands::DeleteTraining
        } else if str_eq(s, "Показати тренування") {
            TrainingsCommands::ShowTrainings
        } else if str_eq(s, "На головну") {
            TrainingsCommands::GoBack
        } else {
            TrainingsCommands::Unrecognized
        }
    }
}

impl From<String> for TrainingsCommands {
    fn from(s: String) -> (r: TrainingsCommands) {
        TrainingsCommands::from_label(s.as_str())
    }
}

impl vstd::std_specs::convert::FromSpecImpl<String> for TrainingsCommands {
    open spec fn obeys_from_spec() -> bool {
        true
    }

    open spec fn from_spec(s: String) -> TrainingsCommands {
        spec_trainings_from(s@)
    }
}

/// The button text of a diet-menu command; empty for `Unrecognized`.
pub open spec fn spec_diet_label(c: DietCommands) -> Seq<char> {
    match c {
        DietCommands::AddDiet => "Додати дієту"@,
        DietCommands::DeleteDiet => "Видалити дієту"@,
        DietCommands::ShowDiet => "Показати дієту"@,
        DietCommands::GoBack => "На головну"@,
        DietCommands::Unrecognized => ""@,
    }
}

/// The diet-menu command a button text denotes.
pub open spec fn spec_diet_from(s: Seq<char>) -> DietCommands {
    if s == spec_diet_label(DietCommands::AddDiet) {
        DietCommands::AddDiet
    } else if s == spec_diet_label(DietCommands::DeleteDiet) {
        DietCommands::DeleteDiet
    } else if s == spec_diet_label(DietCommands::ShowDiet) {
        DietCommands::ShowDiet
    } else if s == spec_diet_label(DietCommands::GoBack) {
        DietCommands::GoBack
    } else {
        DietCommands::Unrecognized
    }
}

impl DietCommands {
    /// The text shown on this button.
    pub fn label(&self) -> (r: String)
        ensures
            r@ == spec_diet_label(*self),
    {
        match self {
            DietCommands::AddDiet => "Додати дієту".to_owned(),
            DietCommands::DeleteDiet => "Видалити дієту".to_owned(),
            DietCommands::ShowDiet => "Показати дієту".to_owned(),
            DietCommands::GoBack => "На головну".to_owned(),
            DietCommands::Unrecognized => "".to_owned(),
        }
    }

    /// Parses a button text; unknown text maps to `Unrecognized`.
    pub fn from_label(s: &str) -> (r: DietCommands)
        ensures
            r == spec_diet_from(s@),
    {
        if str_eq(s, "Додати дієту") {
            DietCommands::AddDiet
        } else if str_eq(s, "Видалити дієту") {
            DietCommands::DeleteDiet
        } else if str_eq(s, "Показати дієту") {
            DietCommands::ShowDiet
        } else if str_eq(s, "На головну") {
            DietCommands::GoBack
        } else {
            DietCommands::Unrecognized
        }
    }
}

impl From<String> for DietCommands {
    fn from(s: String) -> (r: DietCommands) {
        DietCommands::from_label(s.as_str())
    }
}

impl vstd::std_specs::convert::FromSpecImpl<String> for DietCommands {
    open spec fn obeys_from_spec() -> bool {
        true
    }

    open spec fn from_spec(s: String) -> DietCommands {
        spec_diet_from(s@)
    }
}

/// The button text of a data-menu command; empty for `Unrecognized`.
pub open spec fn spec_data_label(c: DataCommands) -> Seq<char> {
    match c {
        DataCommands::UpdateData => "Оновити дані"@,
        DataCommands::UpdateSize => "Оновити розміри"@,
        DataCommands::ShowData => "Показати дані"@,
        DataCommands::ShowStatistics => "Показати статистику"@,
        DataCommands::GoBack => "На головну"@,
        DataCommands::Unrecognized => ""@,
    }
}

/// The data-menu command a button text denotes.
pub open spec fn spec_data_from(s: Seq<char>) -> DataCommands {
    if s == spec_data_label(DataCommands::UpdateData) {
        DataCommands::UpdateData
    } else if s == spec_data_label(DataCommands::UpdateSize) {
        DataCommands::UpdateSize
    } else if s == spec_data_label(DataCommands::ShowData) {
        DataCommands::ShowData
    } else if s == spec_data_label(DataCommands::ShowStatistics) {
        DataCommands::ShowStatistics
    } else if s == spec_data_label(DataCommands::GoBack) {
        DataCommands::GoBack
    } else {
        DataCommands::Unrecognized
    }
}

impl DataCommands {
    /// The text shown on this button.
    pub fn label(&self) -> (r: String)
        ensures
            r@ == spec_data_label(*self),
    {
        match self {
            DataCommands::UpdateData => "Оновити дані".to_owned(),
            DataCommands::UpdateSize => "Оновити розміри".to_owned(),
            DataCommands::ShowData => "Показати дані".to_owned(),
            DataCommands::ShowStatistics => "Показати статистику".to_owned(),
            DataCommands::GoBack => "На головну".to_owned(),
            DataCommands::Unrecognized => "".to_owned(),
        }
    }

    /// Parses a button text; unknown text maps to `Unrecognized`.
    pub fn from_label(s: &str) -> (r: DataCommands)
        ensures
            r == spec_data_from(s@),
    {
        if str_eq(s, "Оновити дані") {
            DataCommands::UpdateData
        } else if str_eq(s, "Оновити розміри") {
            DataCommands::UpdateSize
        } else if str_eq(s, "Показати дані") {
            DataCommands::ShowData
        } else if str_eq(s, "Показати статистику") {
            DataCommands::ShowStatistics
        } else if str_eq(s, "На головну") {
            DataCommands::GoBack
        } else {
            DataCommands::Unrecognized
        }
    }
}

impl From<String> for DataCommands {
    fn from(s: String) -> (r: DataCommands) {
        DataCommands::from_label(s.as_str())
    }
}

impl vstd::std_specs::convert::FromSpecImpl<String> for DataCommands {
    open spec fn obeys_from_spec() -> bool {
        true
    }

    open spec fn from_spec(s: String) -> DataCommands {
        spec_data_from(s@)
    }
}

} // verus!

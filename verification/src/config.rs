//! The settings of the application: where receipts come from, where the
//! results go, and how the expense sheet template is laid out.

use vstd::prelude::*;

verus! {

/// Identifiers in the document store.
#[derive(Debug, PartialEq, Eq)]
pub struct GoogleCfg {
    /// Folder that holds the receipt images.
    pub input_folder_id: String,
    /// Folder that receives the exported PDFs.
    pub output_folder_id: String,
    /// The expense sheet template, or a shortcut to it.
    pub template_sheet_id: String,
}

/// The user, as written into the sheet.
#[derive(Debug, PartialEq, Eq)]
pub struct UserCfg {
    /// Full name.
    pub full_name: String,
}

/// Cells of the template that hold the header values.
#[derive(Debug, PartialEq, Eq)]
pub struct TemplateCfg {
    /// Cell for the user's name.
    pub name_cell: String,
    /// Cell for the target month.
    pub target_month_cell: String,
}

/// Layout of the table of expense rows.
#[derive(Debug, PartialEq, Eq)]
pub struct GeneralExpenseCfg {
    /// First row of the table.
    pub start_row: u32,
    /// Column of the date.
    pub date_col: String,
    /// Column of the reason.
    pub reason_col: String,
    /// Column of the amount.
    pub amount_col: String,
    /// Column of the category.
    pub category_col: String,
    /// Column of the note.
    pub note_col: String,
}

/// All settings.
#[derive(Debug, PartialEq, Eq)]
pub struct Config {
    /// Identifiers in the document store.
    pub google: GoogleCfg,
    /// The user.
    pub user: UserCfg,
    /// Header cells of the template.
    pub template: TemplateCfg,
    /// Layout of the expense rows.
    pub general_expense: GeneralExpenseCfg,
}

/// `GoogleCfg` as mathematical text.
pub struct GoogleCfgView {
    pub input_folder_id: Seq<char>,
    pub output_folder_id: Seq<char>,
    pub template_sheet_id: Seq<char>,
}

/// `UserCfg` as mathematical text.
pub struct UserCfgView {
    pub full_name: Seq<char>,
}

/// `TemplateCfg` as mathematical text.
pub struct TemplateCfgView {
    pub name_cell: Seq<char>,
    pub target_month_cell: Seq<char>,
}

/// `GeneralExpenseCfg` as mathematical text and numbers.
pub struct GeneralExpenseCfgView {
    pub start_row: nat,
    pub date_col: Seq<char>,
    pub reason_col: Seq<char>,
    pub amount_col: Seq<char>,
    pub category_col: Seq<char>,
    pub note_col: Seq<char>,
}

/// `Config` as mathematical text and numbers.
pub struct ConfigView {
    pub google: GoogleCfgView,
    pub user: UserCfgView,
    pub template: TemplateCfgView,
    pub general_expense: GeneralExpenseCfgView,
}

impl View for GoogleCfg {
    type V = GoogleCfgView;

    open spec fn view(&self) -> GoogleCfgView {
        GoogleCfgView {
            input_folder_id: self.input_folder_id@,
            output_folder_id: self.output_folder_id@,
            template_sheet_id: self.template_sheet_id@,
        }
    }
}

impl View for UserCfg {
    type V = UserCfgView;

    open spec fn view(&self) -> UserCfgView {
        UserCfgView { full_name: self.full_name@ }
    }
}

impl View for TemplateCfg {
    type V = TemplateCfgView;

    open spec fn view(&self) -> TemplateCfgView {
        TemplateCfgView {
            name_cell: self.name_cell@,
            target_month_cell: self.target_month_cell@,
        }
    }
}

impl View for GeneralExpenseCfg {
    type V = GeneralExpenseCfgView;

    open spec fn view(&self) -> GeneralExpenseCfgView {
        GeneralExpenseCfgView {
            start_row: self.start_row as nat,
            date_col: self.date_col@,
            reason_col: self.reason_col@,
            amount_col: self.amount_col@,
            category_col: self.category_col@,
            note_col: self.note_col@,
        }
    }
}

impl View for Config {
    type V = ConfigView;

    open spec fn view(&self) -> ConfigView {
        ConfigView {
            google: self.google@,
            user: self.user@,
            template: self.template@,
            general_expense: self.general_expense@,
        }
    }
}

impl Clone for GoogleCfg {
    fn clone(&self) -> (copy: Self)
        ensures
            copy == *self,
    {
        GoogleCfg {
            input_folder_id: self.input_folder_id.clone(),
            output_folder_id: self.output_folder_id.clone(),
            template_sheet_id: self.template_sheet_id.clone(),
        }
    }
}

impl Clone for UserCfg {
    fn clone(&self) -> (copy: Self)
        ensures
            copy == *self,
    {
        UserCfg { full_name: self.full_name.clone() }
    }
}

impl Clone for TemplateCfg {
    fn clone(&self) -> (copy: Self)
        ensures
            copy == *self,
    {
        TemplateCfg {
            name_cell: self.name_cell.clone(),
            target_month_cell: self.target_month_cell.clone(),
        }
    }
}

impl Clone for GeneralExpenseCfg {
    fn clone(&self) -> (copy: Self)
        ensures
            copy == *self,
    {
        GeneralExpenseCfg {
            start_row: self.start_row,
            date_col: self.date_col.clone(),
            reason_col: self.reason_col.clone(),
            amount_col: self.amount_col.clone(),
            category_col: self.category_col.clone(),
            note_col: self.note_col.clone(),
        }
    }
}

impl Clone for Config {
    fn clone(&self) -> (copy: Self)
        ensures
            copy == *self,
    {
        Config {
            google: self.google.clone(),
            user: self.user.clone(),
            template: self.template.clone(),
            general_expense: self.general_expense.clone(),
        }
    }
}

/// The name that stands in for a user who has not entered one.
pub open spec fn placeholder_name() -> Seq<char> {
    "Your Name"@
}

/// The settings of a first start: no identifiers, the placeholder name, and
/// the layout of the stock template.
pub open spec fn default_config() -> ConfigView {
    ConfigView {
        google: GoogleCfgView {
            input_folder_id: Seq::empty(),
            output_folder_id: Seq::empty(),
            template_sheet_id: Seq::empty(),
        },
        user: UserCfgView { full_name: placeholder_name() },
        template: TemplateCfgView { name_cell: "F3"@, target_month_cell: "B3"@ },
        general_expense: GeneralExpenseCfgView {
            start_row: 44,
            date_col: "B"@,
            reason_col: "C"@,
            amount_col: "D"@,
            category_col: "E"@,
            note_col: "F"@,
        },
    }
}

impl Default for Config {
    /// The settings of a first start.
    fn default() -> (cfg: Self)
        ensures
            cfg@ == default_config(),
    {
        Config {
            google: GoogleCfg {
                input_folder_id: String::new(),
                output_folder_id: String::new(),
                template_sheet_id: String::new(),
            },
            user: UserCfg { full_name: "Your Name".to_owned() },
            template: TemplateCfg {
                name_cell: "F3".to_owned(),
                target_month_cell: "B3".to_owned(),
            },
            general_expense: GeneralExpenseCfg {
                start_row: 44,
                date_col: "B".to_owned(),
                reason_col: "C".to_owned(),
                amount_col: "D".to_owned(),
                category_col: "E".to_owned(),
                note_col: "F".to_owned(),
            },
        }
    }
}

} // verus!

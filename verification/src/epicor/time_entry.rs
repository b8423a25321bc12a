//! Time booked on the ERP system's projects.

use vstd::prelude::*;

verus! {

/// The kind of work that a time entry books.
#[derive(Debug, Clone, Copy, PartialEq, Eq, Structural)]
pub enum LaborType {
    Indirect,
    Project,
    Production,
    Service,
    Setup,
}

impl LaborType {
    /// The name of the kind as the ERP system writes it.
    pub open spec fn label(self) -> Seq<char> {
        match self {
            LaborType::Indirect => "Indirect"@,
            LaborType::Project => "Project"@,
            LaborType::Production => "Production"@,
            LaborType::Service => "Service"@,
            LaborType::Setup => "Setup"@,
        }
    }

    pub fn as_str(&self) -> (name: &'static str)
        ensures
            name@ == self.label(),
    {
        match self {
            LaborType::Indirect => "Indirect",
            LaborType::Project => "Project",
            LaborType::Production => "Production",
            LaborType::Service => "Service",
            LaborType::Setup => "Setup",
        }
    }
}

/// Whether labor is booked as direct or as indirect expense.
#[derive(Debug, Clone, Copy, PartialEq, Eq, Structural)]
pub enum ExpenseCode {
    DirectLabor,
    IndirectLabor,
}

/// Time that an employee books.
#[derive(Debug, Clone, PartialEq, Eq)]
pub struct TimeEntry {
    pub employee_id: u32,
    pub labor_type: LaborType,
    pub project_id: Option<String>,
    pub wbs_phase_id: Option<String>,
    pub operation: Option<u32>,
    pub expense_code: Option<ExpenseCode>,
}

} // verus!

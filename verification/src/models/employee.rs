//! Employees.

use vstd::prelude::*;
use vstd::std_specs::convert::FromSpecImpl;
use crate::datetime::{NaiveDate, NaiveDateTime};
use crate::models::infra::sqlite_types::{SqliteDate, SqliteDateTime};

verus! {

/// An employee as the store holds it.
#[derive(Clone, Debug, PartialEq, Eq)]
pub struct Employee {
    pub id: String,
    pub name: String,
    pub email: String,
    pub birth_date: SqliteDate,
    pub created_at: SqliteDateTime,
    pub updated_at: SqliteDateTime,
    pub deleted_at: Option<SqliteDateTime>,
}

/// An employee as callers see it.
#[derive(Clone, Debug, PartialEq, Eq)]
pub struct EmployeeApiModel {
    pub id: String,
    pub name: String,
    pub email: String,
    pub birth_date: NaiveDate,
    pub created_at: NaiveDateTime,
    pub updated_at: NaiveDateTime,
    pub deleted_at: Option<NaiveDateTime>,
}

/// What a caller gives to have an employee created.
#[derive(Clone, Debug, PartialEq, Eq)]
pub struct NewEmployee {
    pub name: String,
    pub email: String,
    pub birth_date: NaiveDate,
}

/// What an employee is, whichever of its two forms holds it.
pub struct EmployeeView {
    pub id: Seq<char>,
    pub name: Seq<char>,
    pub email: Seq<char>,
    pub birth_date: NaiveDate,
    pub created_at: NaiveDateTime,
    pub updated_at: NaiveDateTime,
    pub deleted_at: Option<NaiveDateTime>,
}

impl View for Employee {
    type V = EmployeeView;

    open spec fn view(&self) -> EmployeeView {
        EmployeeView {
            id: self.id@,
            name: self.name@,
            email: self.email@,
            birth_date: self.birth_date.0,
            created_at: self.created_at.0,
            updated_at: self.updated_at.0,
            deleted_at: match self.deleted_at {
                Some(t) => Some(t.0),
                None => None,
            },
        }
    }
}

impl View for EmployeeApiModel {
    type V = EmployeeView;

    open spec fn view(&self) -> EmployeeView {
        EmployeeView {
            id: self.id@,
            name: self.name@,
            email: self.email@,
            birth_date: self.birth_date,
            created_at: self.created_at,
            updated_at: self.updated_at,
            deleted_at: self.deleted_at,
        }
    }
}

impl EmployeeView {
    /// The employee that `from_new` makes at the moment `now`.
    pub open spec fn created(
        name: Seq<char>,
        email: Seq<char>,
        birth_date: NaiveDate,
        id: Seq<char>,
        now: NaiveDateTime,
    ) -> EmployeeView {
        EmployeeView {
            id,
            name,
            email,
            birth_date,
            created_at: now,
            updated_at: now,
            deleted_at: None,
        }
    }

    /// This employee after it was marked as deleted at the moment `now`.
    pub open spec fn deleted(self, now: NaiveDateTime) -> EmployeeView {
        EmployeeView { updated_at: now, deleted_at: Some(now), ..self }
    }
}

impl Employee {
    /// The employee in the form that callers see.
    pub fn to_api_model(&self) -> (api: EmployeeApiModel)
        ensures
            api@ == self@,
    {
        EmployeeApiModel {
            id: self.id.clone(),
            name: self.name.clone(),
            email: self.email.clone(),
            birth_date: self.birth_date.into_naive_date(),
            created_at: self.created_at.into_naive_date_time(),
            updated_at: self.updated_at.into_naive_date_time(),
            deleted_at: match self.deleted_at {
                Some(t) => Some(t.into_naive_date_time()),
                None => None,
            },
        }
    }

    /// A new employee with the identifier `id`, created and last updated at
    /// the moment `now`, and not deleted.
    pub fn from_new_at(new: NewEmployee, id: String, now: NaiveDateTime) -> (employee: Employee)
        ensures
            employee@ == EmployeeView::created(new.name@, new.email@, new.birth_date, id@, now),
    {
        Employee {
            id,
            name: new.name,
            email: new.email,
            birth_date: SqliteDate::from(new.birth_date),
            created_at: SqliteDateTime::from(now),
            updated_at: SqliteDateTime::from(now),
            deleted_at: None,
        }
    }

    /// A new employee with the identifier `id`, created and last updated now,
    /// and not deleted. The fields of `new` are taken as they are.
    pub fn from_new(new: NewEmployee, id: String) -> (employee: Employee)
        ensures
            employee@ == EmployeeView::created(
                new.name@,
                new.email@,
                new.birth_date,
                id@,
                employee@.created_at,
            ),
    {
        Self::from_new_at(new, id, NaiveDateTime::now())
    }

    /// Marks the employee as deleted at the moment `now`.
    pub fn soft_delete_at(&mut self, now: NaiveDateTime)
        ensures
            final(self)@ == old(self)@.deleted(now),
    {
        self.updated_at = SqliteDateTime::from(now);
        self.deleted_at = Some(SqliteDateTime::from(now));
    }

    /// Marks the employee as deleted at the present moment.
    pub fn soft_delete(&mut self)
        ensures
            final(self)@ == old(self)@.deleted(final(self)@.updated_at),
    {
        self.soft_delete_at(NaiveDateTime::now())
    }

    /// Whether the employee was marked as deleted.
    pub fn is_deleted(&self) -> (b: bool)
        ensures
            b == (self@.deleted_at is Some),
    {
        self.deleted_at.is_some()
    }
}

impl From<Employee> for EmployeeApiModel {
    fn from(employee: Employee) -> (api: Self) {
        EmployeeApiModel {
            id: employee.id,
            name: employee.name,
            email: employee.email,
            birth_date: employee.birth_date.0,
            created_at: employee.created_at.0,
            updated_at: employee.updated_at.0,
            deleted_at: match employee.deleted_at {
                Some(t) => Some(t.0),
                None => None,
            },
        }
    }
}

impl FromSpecImpl<Employee> for EmployeeApiModel {
    open spec fn obeys_from_spec() -> bool {
        true
    }

    open spec fn from_spec(employee: Employee) -> Self {
        EmployeeApiModel {
            id: employee.id,
            name: employee.name,
            email: employee.email,
            birth_date: employee.birth_date.0,
            created_at: employee.created_at.0,
            updated_at: employee.updated_at.0,
            deleted_at: match employee.deleted_at {
                Some(t) => Some(t.0),
                None => None,
            },
        }
    }
}

} // verus!

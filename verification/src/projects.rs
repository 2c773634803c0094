//! The admin surface's rules for projects: paging of listings and the answers
//! to what the relational store reports.

use crate::error::{AppError, AppErrorView};
use crate::ids::{id_text, id_to_string};
use crate::project::{NewProject, UpdateProject};
use crate::text::concat3;
use vstd::prelude::*;
use vstd::string::*;

verus! {

/// The page shown where none is asked for.
pub const DEFAULT_PAGE: i64 = 1;

/// Projects per page where no number is asked for.
pub const DEFAULT_PER_PAGE: i64 = 20;

/// Most projects per page.
pub const MAX_PER_PAGE: i64 = 100;

/// What is said of a project name that is in use.
pub const ERR_NAME_TAKEN: &'static str = "A project with this name already exists";

/// What a client may ask of a listing of projects.
#[derive(Debug)]
pub struct ListProjectsQuery {
    pub active: Option<bool>,
    pub page: Option<i64>,
    pub per_page: Option<i64>,
}

/// The page a listing shows, and where it starts in the whole.
#[derive(Debug, Clone, Copy, PartialEq, Eq, Structural)]
pub struct Paging {
    pub page: i64,
    pub per_page: i64,
    pub offset: i64,
}

/// What a listing says of itself.
#[derive(Debug)]
pub struct PaginationMeta {
    pub page: i64,
    pub per_page: i64,
    pub total: i64,
}

/// The body of a request to create a project.
#[derive(Debug)]
pub struct CreateProjectRequest {
    pub name: String,
}

/// The body of a request to change a project.
#[derive(Debug)]
pub struct UpdateProjectRequest {
    pub name: Option<String>,
    pub active: Option<bool>,
}

/// The page that is shown for a request of `page`: the first where none or
/// one before the first is asked for.
pub open spec fn effective_page(page: Option<i64>) -> int {
    match page {
        Some(p) => if p < 1 {
            1
        } else {
            p as int
        },
        None => DEFAULT_PAGE as int,
    }
}

/// The size of a page for a request of `per_page`: held between 1 and
/// [`MAX_PER_PAGE`].
pub open spec fn effective_per_page(per_page: Option<i64>) -> int {
    match per_page {
        Some(n) => if n < 1 {
            1
        } else if n > MAX_PER_PAGE {
            MAX_PER_PAGE as int
        } else {
            n as int
        },
        None => DEFAULT_PER_PAGE as int,
    }
}

/// The message for a project that is not there.
pub open spec fn project_missing_message(id: u128) -> Seq<char> {
    "Project "@ + id_text(id) + " not found"@
}

impl ListProjectsQuery {
    /// The page to show and the offset at which it starts. `None` where the
    /// page asked for lies so far out that its offset cannot be counted.
    pub fn paging(&self) -> (r: Option<Paging>)
        ensures
            ({
                let page = effective_page(self.page);
                let per_page = effective_per_page(self.per_page);
                let offset = (page - 1) * per_page;
                r == (if offset <= i64::MAX {
                    Some(Paging { page: page as i64, per_page: per_page as i64, offset: offset as i64 })
                } else {
                    None
                })
            }),
    {
        let page: i64 = match self.page {
            Some(p) => if p < 1 {
                1
            } else {
                p
            },
            None => DEFAULT_PAGE,
        };
        let per_page: i64 = match self.per_page {
            Some(n) => if n < 1 {
                1
            } else if n > MAX_PER_PAGE {
                MAX_PER_PAGE
            } else {
                n
            },
            None => DEFAULT_PER_PAGE,
        };
        assert((page - 1) * per_page >= 0) by (nonlinear_arith)
            requires
                page >= 1,
                per_page >= 1,
        ;
        match (page - 1).checked_mul(per_page) {
            Some(offset) => Some(Paging { page, per_page, offset }),
            None => None,
        }
    }
}

impl PaginationMeta {
    /// What a listing of `total` projects says of the page it shows.
    pub fn new(paging: &Paging, total: i64) -> (r: PaginationMeta)
        ensures
            r.page == paging.page,
            r.per_page == paging.per_page,
            r.total == total,
    {
        PaginationMeta { page: paging.page, per_page: paging.per_page, total }
    }
}

impl CreateProjectRequest {
    /// What is stored for this request.
    pub fn into_new_project(self) -> (r: NewProject)
        ensures
            r.name == self.name,
    {
        NewProject { name: self.name }
    }
}

impl UpdateProjectRequest {
    /// The changes this request asks for.
    pub fn into_changes(self) -> (r: UpdateProject)
        ensures
            r.name == self.name,
            r.active == self.active,
    {
        UpdateProject { name: self.name, active: self.active }
    }
}

/// The error for a project that is not there.
pub fn project_not_found(id: u128) -> (r: AppError)
    ensures
        r@ == AppErrorView::NotFound(project_missing_message(id)),
{
    AppError::NotFound(concat3("Project ", id_to_string(id).as_str(), " not found"))
}

/// The answer to a soft delete that touched a row or did not. A project that
/// was there is gone now, and its keys are to be revoked next; one that was
/// not is reported as missing.
pub fn deletion_outcome(deleted: bool, id: u128) -> (r: Result<(), AppError>)
    ensures
        deleted ==> r is Ok,
        !deleted ==> (r matches Err(e) && e@ == AppErrorView::NotFound(
            project_missing_message(id),
        )),
{
    if deleted {
        Ok(())
    } else {
        Err(project_not_found(id))
    }
}

/// The error for a write that the relational store refused: a name that is
/// taken is the client's mistake, anything else a database error that carries
/// `detail`.
pub fn write_error(unique_violation: bool, detail: String) -> (r: AppError)
    ensures
        unique_violation ==> r@ == AppErrorView::Validation(ERR_NAME_TAKEN@),
        !unique_violation ==> r@ == AppErrorView::Database(detail@),
{
    if unique_violation {
        AppError::Validation(String::from_str(ERR_NAME_TAKEN))
    } else {
        AppError::Database(detail)
    }
}

} // verus!

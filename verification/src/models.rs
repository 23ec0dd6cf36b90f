//! The rows of the table `applications`.
use crate::text::opt_view;
use vstd::prelude::*;

verus! {

/// A row.
pub struct Application {
    pub id: i32,
    pub user: String,
    pub token: String,
    pub addr: Option<String>,
}

/// What a row holds.
pub struct ApplicationView {
    pub id: i32,
    pub user: Seq<char>,
    pub token: Seq<char>,
    pub addr: Option<Seq<char>>,
}

impl View for Application {
    type V = ApplicationView;

    open spec fn view(&self) -> ApplicationView {
        ApplicationView {
            id: self.id,
            user: self.user@,
            token: self.token@,
            addr: opt_view(self.addr),
        }
    }
}

/// What is stored of a new application.
pub struct NewApplication {
    pub user: String,
    pub token: String,
}

} // verus!

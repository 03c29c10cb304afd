//! What holds of the contract as a whole.

pub mod access;
pub mod administration;
pub mod answers;
pub mod books;
pub mod clock;
pub mod escrow;
pub mod functions;
pub mod history;
pub mod loans;
pub mod offers;
pub mod payouts;
pub mod promises;
pub mod purchases;
pub mod reads;
pub mod sales;
pub mod terms;
pub mod wording;

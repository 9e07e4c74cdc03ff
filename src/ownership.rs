//! Ownership, empréstimos e fatias.

pub mod o_que_e;
pub mod referencias_e_borrowing;
pub mod slice;

pub mod channel;
pub mod cp;
pub mod edp;
pub mod mutlock;
pub mod prac;
pub mod producer_consumer;
pub mod scheduler;
pub mod seqcst;
pub mod spinlock;
pub mod splc;
pub mod uncell;

use vstd::prelude::*;

verus! {

/// One observed DNS response: the question asked and the answers given.
/// High-volume point records of this shape are what the batch aggregator
/// coalesces.
#[derive(Clone, Debug, PartialEq, Eq)]
pub struct Response {
    pub question: Question,
    pub answers: Vec<Answer>,
}

/// The question: the name asked for and the address of the asking host.
#[derive(Clone, Debug, PartialEq, Eq)]
pub struct Question {
    pub name: String,
    pub host: Vec<u8>,
}

/// One answer: the name, its canonical name if any, the address returned,
/// and its time to live.
#[derive(Clone, Debug, PartialEq, Eq)]
pub struct Answer {
    pub name: String,
    pub cname: String,
    pub ip: Vec<u8>,
    pub ttl: u32,
}

} // verus!

//! A simpler sending side that counts the packets it sends.
use vstd::prelude::*;

verus! {

/// Settings of the simple sender.
pub struct Client<'a> {
    pub src_addr: &'a str,
    pub dst_addr: &'a str,
    pub thread_num: u8,
    pub rate: u64,
    pub count: u64,
}

/// A simple sender with the default settings.
pub fn new<'a>() -> (c: Client<'a>)
    ensures
        c.src_addr@ == "0.0.0.0:3056"@,
        c.dst_addr@ == "127.0.0.1:3055"@,
        c.thread_num == 4,
        c.rate == 200,
        c.count == 100,
{
    Client {
        src_addr: "0.0.0.0:3056",
        dst_addr: "127.0.0.1:3055",
        thread_num: 4,
        rate: 200,
        count: 100,
    }
}

} // verus!

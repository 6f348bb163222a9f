use vstd::prelude::*;
use vstd::string::*;

verus! {

/// The record types that a NOTIFY question may carry.
#[derive(Clone, Copy, Debug, PartialEq, Eq, Structural)]
pub enum RecordType {
    A,
    AAAA,
    CNAME,
    MX,
    NS,
    PTR,
    SOA,
    SRV,
    TXT,
    ANY,
    AXFR,
}

/// The record type written by `name` in upper case, if it is one of the supported ones.
pub open spec fn record_type_of(name: Seq<u8>) -> Option<RecordType> {
    if name =~= seq![65u8] {
        Some(RecordType::A)
    } else if name =~= seq![65u8, 65u8, 65u8, 65u8] {
        Some(RecordType::AAAA)
    } else if name =~= seq![67u8, 78u8, 65u8, 77u8, 69u8] {
        Some(RecordType::CNAME)
    } else if name =~= seq![77u8, 88u8] {
        Some(RecordType::MX)
    } else if name =~= seq![78u8, 83u8] {
        Some(RecordType::NS)
    } else if name =~= seq![80u8, 84u8, 82u8] {
        Some(RecordType::PTR)
    } else if name =~= seq![83u8, 79u8, 65u8] {
        Some(RecordType::SOA)
    } else if name =~= seq![83u8, 82u8, 86u8] {
        Some(RecordType::SRV)
    } else if name =~= seq![84u8, 88u8, 84u8] {
        Some(RecordType::TXT)
    } else if name =~= seq![65u8, 78u8, 89u8] {
        Some(RecordType::ANY)
    } else if name =~= seq![65u8, 88u8, 70u8, 82u8] {
        Some(RecordType::AXFR)
    } else {
        None
    }
}

/// The numeric TYPE of each record type, as the DNS registry assigns it.
pub open spec fn type_code(t: RecordType) -> u16 {
    match t {
        RecordType::A => 1,
        RecordType::AAAA => 28,
        RecordType::CNAME => 5,
        RecordType::MX => 15,
        RecordType::NS => 2,
        RecordType::PTR => 12,
        RecordType::SOA => 6,
        RecordType::SRV => 33,
        RecordType::TXT => 16,
        RecordType::ANY => 255,
        RecordType::AXFR => 252,
    }
}

impl RecordType {
    /// Reads a record type from its upper-case name (`"SOA"`, `"AAAA"`, ...).
    pub fn from_name(name: &str) -> (r: Option<RecordType>)
        ensures
            r == record_type_of(name.spec_bytes()),
    {
        let b = name.as_bytes();
        if b.len() == 1 && b[0] == 65u8 {
            Some(RecordType::A)
        } else if b.len() == 4 && b[0] == 65u8 && b[1] == 65u8 && b[2] == 65u8 && b[3] == 65u8 {
            Some(RecordType::AAAA)
        } else if b.len() == 5 && b[0] == 67u8 && b[1] == 78u8 && b[2] == 65u8 && b[3] == 77u8 && b[4] == 69u8 {
            Some(RecordType::CNAME)
        } else if b.len() == 2 && b[0] == 77u8 && b[1] == 88u8 {
            Some(RecordType::MX)
        } else if b.len() == 2 && b[0] == 78u8 && b[1] == 83u8 {
            Some(RecordType::NS)
        } else if b.len() == 3 && b[0] == 80u8 && b[1] == 84u8 && b[2] == 82u8 {
            Some(RecordType::PTR)
        } else if b.len() == 3 && b[0] == 83u8 && b[1] == 79u8 && b[2] == 65u8 {
            Some(RecordType::SOA)
        } else if b.len() == 3 && b[0] == 83u8 && b[1] == 82u8 && b[2] == 86u8 {
            Some(RecordType::SRV)
        } else if b.len() == 3 && b[0] == 84u8 && b[1] == 88u8 && b[2] == 84u8 {
            Some(RecordType::TXT)
        } else if b.len() == 3 && b[0] == 65u8 && b[1] == 78u8 && b[2] == 89u8 {
            Some(RecordType::ANY)
        } else if b.len() == 4 && b[0] == 65u8 && b[1] == 88u8 && b[2] == 70u8 && b[3] == 82u8 {
            Some(RecordType::AXFR)
        } else {
            None
        }
    }

    /// The numeric TYPE that goes into the question.
    pub fn code(&self) -> (r: u16)
        ensures
            r == type_code(*self),
    {
        match self {
            RecordType::A => 1,
            RecordType::AAAA => 28,
            RecordType::CNAME => 5,
            RecordType::MX => 15,
            RecordType::NS => 2,
            RecordType::PTR => 12,
            RecordType::SOA => 6,
            RecordType::SRV => 33,
            RecordType::TXT => 16,
            RecordType::ANY => 255,
            RecordType::AXFR => 252,
        }
    }
}

} // verus!

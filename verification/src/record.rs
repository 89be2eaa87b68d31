//! The record decoder: positional mapping of one raw field sequence into a
//! typed record, with fatal errors for a wrong field count or a numeric
//! field that does not parse.

use vstd::prelude::*;
use vstd::string::StringExecFns;

use crate::digits::{parse_u8, spec_parse_u8};
use crate::model::RecV;

verus! {

/// Number of fields every raw record must carry.
pub const NUM_FIELDS: usize = 22;

/// Position of each field the pipeline reads within a raw record.
pub const POS_PREF_CODE: usize = 1;

pub const POS_CITY_CODE: usize = 2;

pub const POS_ZIP_CODE: usize = 4;

pub const POS_BULK_FLAG: usize = 5;

pub const POS_PREF_NAME: usize = 7;

pub const POS_CITY_NAME: usize = 9;

pub const POS_TOWN_AREA: usize = 11;

pub const POS_KYOTO_STREET: usize = 14;

pub const POS_STREET_NAME: usize = 15;

/// A fatal decoding failure: the whole run aborts on any of these.
#[derive(Debug, Clone, Copy, PartialEq, Eq, Structural)]
pub enum DecodeError {
    /// The raw record does not hold exactly `NUM_FIELDS` fields.
    FieldCount,
    /// The bulk-recipient flag field is not a small decimal number.
    BulkFlag,
    /// The region (prefecture) code field is not a small decimal number.
    RegionCode,
}

pub open spec fn message_of(e: DecodeError) -> Seq<char> {
    match e {
        DecodeError::FieldCount => "record does not have exactly 22 fields"@,
        DecodeError::BulkFlag => "bulk-recipient flag is not a number in 0..=255"@,
        DecodeError::RegionCode => "region code is not a number in 0..=255"@,
    }
}

impl DecodeError {
    /// One-line human-readable description of the failure.
    pub fn message(&self) -> (r: String)
        ensures
            r@ == message_of(*self),
    {
        match self {
            DecodeError::FieldCount => String::from_str("record does not have exactly 22 fields"),
            DecodeError::BulkFlag => String::from_str(
                "bulk-recipient flag is not a number in 0..=255",
            ),
            DecodeError::RegionCode => String::from_str("region code is not a number in 0..=255"),
        }
    }
}

/// A decoded record: the fields the pipeline reads, with the numeric ones
/// already parsed and the bulk-recipient filter applied as the `skip` flag.
#[derive(Debug)]
pub struct Record {
    pub skip: bool,
    pub pref_code: u8,
    pub pref_name: String,
    pub city_code: String,
    pub city_name: String,
    pub zip_code: String,
    pub town_area: String,
    pub street_name: String,
    pub kyoto_street_name: String,
}

impl View for Record {
    type V = RecV;

    open spec fn view(&self) -> RecV {
        RecV {
            skip: self.skip,
            pref_code: self.pref_code as int,
            pref_name: self.pref_name@,
            city_code: self.city_code@,
            city_name: self.city_name@,
            zip_code: self.zip_code@,
            town_area: self.town_area@,
            street_name: self.street_name@,
            kyoto_street_name: self.kyoto_street_name@,
        }
    }
}

/// What decoding a raw field sequence yields: the typed record, or the
/// first applicable fatal error (field count, then bulk flag, then region
/// code).
pub open spec fn spec_decode(fields: Seq<Seq<char>>) -> Result<RecV, DecodeError> {
    if fields.len() != NUM_FIELDS {
        Err(DecodeError::FieldCount)
    } else {
        match (spec_parse_u8(fields[POS_BULK_FLAG as int]), spec_parse_u8(
            fields[POS_PREF_CODE as int],
        )) {
            (None, _) => Err(DecodeError::BulkFlag),
            (_, None) => Err(DecodeError::RegionCode),
            (Some(flag), Some(pc)) => Ok(
                RecV {
                    skip: flag == 1,
                    pref_code: pc as int,
                    pref_name: fields[POS_PREF_NAME as int],
                    city_code: fields[POS_CITY_CODE as int],
                    city_name: fields[POS_CITY_NAME as int],
                    zip_code: fields[POS_ZIP_CODE as int],
                    town_area: fields[POS_TOWN_AREA as int],
                    street_name: fields[POS_STREET_NAME as int],
                    kyoto_street_name: fields[POS_KYOTO_STREET as int],
                },
            ),
        }
    }
}

/// Decodes one raw field sequence into a typed record, or reports the first
/// fatal error exactly as `spec_decode` states it.
pub fn decode(fields: &Vec<String>) -> (r: Result<Record, DecodeError>)
    ensures
        (match spec_decode(fields.deep_view()) {
            Ok(rv) => r matches Ok(rec) && rec@ == rv,
            Err(e) => r matches Err(e2) && e2 == e,
        }),
{
    proof {
        assert(fields.deep_view().len() == fields@.len());
    }
    if fields.len() != NUM_FIELDS {
        return Err(DecodeError::FieldCount);
    }
    proof {
        assert forall|i: int| 0 <= i < fields@.len() implies fields.deep_view()[i]
            == fields@[i]@ by {}
    }
    let flag = match parse_u8(fields[POS_BULK_FLAG].as_str()) {
        None => {
            return Err(DecodeError::BulkFlag);
        },
        Some(f) => f,
    };
    let pc = match parse_u8(fields[POS_PREF_CODE].as_str()) {
        None => {
            return Err(DecodeError::RegionCode);
        },
        Some(p) => p,
    };
    Ok(
        Record {
            skip: flag == 1,
            pref_code: pc,
            pref_name: fields[POS_PREF_NAME].clone(),
            city_code: fields[POS_CITY_CODE].clone(),
            city_name: fields[POS_CITY_NAME].clone(),
            zip_code: fields[POS_ZIP_CODE].clone(),
            town_area: fields[POS_TOWN_AREA].clone(),
            street_name: fields[POS_STREET_NAME].clone(),
            kyoto_street_name: fields[POS_KYOTO_STREET].clone(),
        },
    )
}

} // verus!

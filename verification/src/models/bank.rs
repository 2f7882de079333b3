//! Banks: the fixed list of FPX banks, and the record a bank account is
//! verified with.

use vstd::prelude::*;
use crate::codec::{outcome, read_str, take_str, FromJson, ToJson};
use crate::error::{ParseError, ParseErrorView};
use crate::json::{self, no_members, value_view, Json};

verus! {

/// One entry of the reference list of FPX banks.
#[derive(Debug, Clone, PartialEq, Eq)]
pub struct FpxBank {
    pub bank_code: String,
    pub bank_name: String,
}

/// [`FpxBank`] as plain mathematical values.
pub struct FpxBankView {
    pub bank_code: Seq<char>,
    pub bank_name: Seq<char>,
}

impl DeepView for FpxBank {
    type V = FpxBankView;

    open spec fn deep_view(&self) -> FpxBankView {
        FpxBankView { bank_code: self.bank_code@, bank_name: self.bank_name@ }
    }
}

impl View for FpxBank {
    type V = FpxBankView;

    open spec fn view(&self) -> FpxBankView {
        self.deep_view()
    }
}

/// The members of the object an entry of the bank list is shown as.
pub open spec fn fpx_bank_object(b: FpxBankView) -> Map<Seq<char>, Json> {
    let m = no_members();
    let m = m.insert("bank_code"@, Json::Str(b.bank_code));
    m.insert("bank_name"@, Json::Str(b.bank_name))
}

impl ToJson for FpxBank {
    open spec fn encoded(b: FpxBankView) -> Json {
        Json::Object(fpx_bank_object(b))
    }

    fn to_json(&self) -> (v: serde_json::Value)
        ensures
            value_view(v) == Json::Object(fpx_bank_object(self@)),
    {
        let mut m = json::members();
        json::insert(&mut m, "bank_code", json::string(self.bank_code.as_str()));
        json::insert(&mut m, "bank_name", json::string(self.bank_name.as_str()));
        json::object(m)
    }
}

impl FromJson for FpxBank {
    /// Both members are required.
    open spec fn decoded(j: Json) -> Result<FpxBankView, ParseErrorView> {
        let bank_code = read_str(j, "bank_code"@);
        let bank_name = read_str(j, "bank_name"@);
        if !(j is Object) {
            Err(ParseErrorView::NotAnObject)
        } else if bank_code is Err {
            Err(bank_code->Err_0)
        } else if bank_name is Err {
            Err(bank_name->Err_0)
        } else {
            Ok(FpxBankView { bank_code: bank_code->Ok_0, bank_name: bank_name->Ok_0 })
        }
    }

    fn from_json(v: &serde_json::Value) -> (r: Result<Self, ParseError>)
        ensures
            outcome(r) == Self::decoded(value_view(*v)),
    {
        if !json::is_object(v) {
            return Err(ParseError::NotAnObject);
        }
        let bank_code = take_str(v, "bank_code")?;
        let bank_name = take_str(v, "bank_name")?;
        Ok(FpxBank { bank_code, bank_name })
    }
}

/// The request that asks for a bank account to be verified.
#[derive(Debug, Clone, PartialEq, Eq)]
pub struct Bank {
    pub name: String,
    pub id_no: String,
    pub acc_no: String,
    pub code: String,
    pub organization: bool,
}

/// [`Bank`] as plain mathematical values.
pub struct BankView {
    pub name: Seq<char>,
    pub id_no: Seq<char>,
    pub acc_no: Seq<char>,
    pub code: Seq<char>,
    pub organization: bool,
}

impl DeepView for Bank {
    type V = BankView;

    open spec fn deep_view(&self) -> BankView {
        BankView {
            name: self.name@,
            id_no: self.id_no@,
            acc_no: self.acc_no@,
            code: self.code@,
            organization: self.organization,
        }
    }
}

impl View for Bank {
    type V = BankView;

    open spec fn view(&self) -> BankView {
        self.deep_view()
    }
}

/// The members of the object a bank verification is sent as.
pub open spec fn bank_object(b: BankView) -> Map<Seq<char>, Json> {
    let m = no_members();
    let m = m.insert("name"@, Json::Str(b.name));
    let m = m.insert("id_no"@, Json::Str(b.id_no));
    let m = m.insert("acc_no"@, Json::Str(b.acc_no));
    let m = m.insert("code"@, Json::Str(b.code));
    m.insert("organization"@, Json::Bool(b.organization))
}

impl ToJson for Bank {
    open spec fn encoded(b: BankView) -> Json {
        Json::Object(bank_object(b))
    }

    fn to_json(&self) -> (v: serde_json::Value)
        ensures
            value_view(v) == Json::Object(bank_object(self@)),
    {
        let mut m = json::members();
        json::insert(&mut m, "name", json::string(self.name.as_str()));
        json::insert(&mut m, "id_no", json::string(self.id_no.as_str()));
        json::insert(&mut m, "acc_no", json::string(self.acc_no.as_str()));
        json::insert(&mut m, "code", json::string(self.code.as_str()));
        json::insert(&mut m, "organization", json::boolean(self.organization));
        json::object(m)
    }
}

} // verus!

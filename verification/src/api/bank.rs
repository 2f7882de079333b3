//! The list of FPX banks, and verifying bank accounts.

use vstd::prelude::*;
use vstd::string::*;
use crate::codec::ToJson;
use crate::client::{create_request, read_request, BillplzClient, ClientView, Environment};
use crate::http::{Request, RequestView};
use crate::json::Json;
use crate::models::bank::{bank_object, Bank, BankView, FpxBank, FpxBankView};

verus! {

/// An entry of the bank list.
pub open spec fn fpx(bank_code: Seq<char>, bank_name: Seq<char>) -> FpxBankView {
    FpxBankView { bank_code, bank_name }
}

/// The twenty banks that take part in FPX.
pub open spec fn production_bank_list() -> Seq<FpxBankView> {
    seq![
        fpx("ABMB0212"@, "Alliance Bank"@),
        fpx("ABB0233"@, "Affin Bank"@),
        fpx("AMBB0209"@, "AmBank"@),
        fpx("BCBB0235"@, "CIMB Clicks"@),
        fpx("BIMB0340"@, "Bank Islam"@),
        fpx("BKRM0602"@, "Bank Rakyat"@),
        fpx("BMMB0341"@, "Bank Muamalat"@),
        fpx("BSN0601"@, "BSN"@),
        fpx("CIT0217"@, "Citibank Berhad"@),
        fpx("HLB0224"@, "Hong Leong Bank"@),
        fpx("HSBC0223"@, "HSBC Bank"@),
        fpx("KFH0346"@, "Kuwait Finance House"@),
        fpx("MB2U0227"@, "Maybank2u"@),
        fpx("MBB0227"@, "Maybank2E"@),
        fpx("MBB0228"@, "Maybank2E"@),
        fpx("OCBC0229"@, "OCBC Bank"@),
        fpx("PBB0233"@, "Public Bank"@),
        fpx("RHB0218"@, "RHB Now"@),
        fpx("SCB0216"@, "Standard Chartered"@),
        fpx("UOB0226"@, "UOB Bank"@),
    ]
}

/// The seven stand-in banks that only staging knows.
pub open spec fn staging_bank_list() -> Seq<FpxBankView> {
    seq![
        fpx("TEST0001"@, "Test 0001"@),
        fpx("TEST0002"@, "Test 0002"@),
        fpx("TEST0003"@, "Test 0003"@),
        fpx("TEST0004"@, "Test 0004"@),
        fpx("TEST0021"@, "Test 0021"@),
        fpx("TEST0022"@, "Test 0022"@),
        fpx("TEST0023"@, "Test 0023"@),
    ]
}

/// The bank list of a client: the real banks, followed in staging by the
/// stand-in banks.
pub open spec fn fpx_bank_list(environment: Option<Environment>) -> Seq<FpxBankView> {
    if environment == Some(Environment::Staging) {
        production_bank_list() + staging_bank_list()
    } else {
        production_bank_list()
    }
}

/// Whether a bank code carries the marker of a stand-in bank.
pub open spec fn is_test_code(bank_code: Seq<char>) -> bool {
    bank_code.len() >= 4 && bank_code.subrange(0, 4) == seq!['T', 'E', 'S', 'T']
}

/// The real banks are twenty and none of them carries the marker.
pub proof fn lemma_production_banks()
    ensures
        production_bank_list().len() == 20,
        forall|i: int|
            0 <= i < 20 ==> !is_test_code(#[trigger] production_bank_list()[i].bank_code),
{
    reveal_strlit("ABMB0212");
    reveal_strlit("ABB0233");
    reveal_strlit("AMBB0209");
    reveal_strlit("BCBB0235");
    reveal_strlit("BIMB0340");
    reveal_strlit("BKRM0602");
    reveal_strlit("BMMB0341");
    reveal_strlit("BSN0601");
    reveal_strlit("CIT0217");
    reveal_strlit("HLB0224");
    reveal_strlit("HSBC0223");
    reveal_strlit("KFH0346");
    reveal_strlit("MB2U0227");
    reveal_strlit("MBB0227");
    reveal_strlit("MBB0228");
    reveal_strlit("OCBC0229");
    reveal_strlit("PBB0233");
    reveal_strlit("RHB0218");
    reveal_strlit("SCB0216");
    reveal_strlit("UOB0226");
}

/// The stand-in banks are seven and each of them carries the marker.
pub proof fn lemma_staging_banks()
    ensures
        staging_bank_list().len() == 7,
        forall|i: int| 0 <= i < 7 ==> is_test_code(#[trigger] staging_bank_list()[i].bank_code),
{
    reveal_strlit("TEST0001");
    reveal_strlit("TEST0002");
    reveal_strlit("TEST0003");
    reveal_strlit("TEST0004");
    reveal_strlit("TEST0021");
    reveal_strlit("TEST0022");
    reveal_strlit("TEST0023");
    assert forall|i: int| 0 <= i < 7 implies is_test_code(
        #[trigger] staging_bank_list()[i].bank_code,
    ) by {
        let code = staging_bank_list()[i].bank_code;
        assert(code.subrange(0, 4) =~= seq!['T', 'E', 'S', 'T']);
    }
}

/// In production, and for a client of no environment, the bank list is the
/// twenty real banks and holds no entry with the marker. In staging it is
/// those twenty, in the same order, followed by exactly the seven stand-in
/// banks.
pub proof fn lemma_fpx_bank_list(environment: Option<Environment>)
    ensures
        fpx_bank_list(environment).subrange(0, 20) == production_bank_list(),
        environment != Some(Environment::Staging) ==> {
            &&& fpx_bank_list(environment).len() == 20
            &&& forall|i: int|
                0 <= i < 20 ==> !is_test_code(#[trigger] fpx_bank_list(environment)[i].bank_code)
        },
        environment == Some(Environment::Staging) ==> {
            &&& fpx_bank_list(environment).len() == 27
            &&& forall|i: int|
                0 <= i < 27 ==> (is_test_code(#[trigger] fpx_bank_list(environment)[i].bank_code)
                    <==> 20 <= i)
        },
{
    lemma_production_banks();
    lemma_staging_banks();
}

/// Appends one entry to a bank list.
fn push_bank(banks: &mut Vec<FpxBank>, bank_code: &str, bank_name: &str)
    ensures
        final(banks).deep_view() == old(banks).deep_view().push(fpx(bank_code@, bank_name@)),
{
    let bank = FpxBank {
        bank_code: String::from_str(bank_code),
        bank_name: String::from_str(bank_name),
    };
    banks.push(bank);
}

/// The twenty banks that take part in FPX.
pub fn production_banks() -> (banks: Vec<FpxBank>)
    ensures
        banks.deep_view() == production_bank_list(),
{
    let mut banks: Vec<FpxBank> = Vec::new();
    push_bank(&mut banks, "ABMB0212", "Alliance Bank");
    push_bank(&mut banks, "ABB0233", "Affin Bank");
    push_bank(&mut banks, "AMBB0209", "AmBank");
    push_bank(&mut banks, "BCBB0235", "CIMB Clicks");
    push_bank(&mut banks, "BIMB0340", "Bank Islam");
    push_bank(&mut banks, "BKRM0602", "Bank Rakyat");
    push_bank(&mut banks, "BMMB0341", "Bank Muamalat");
    push_bank(&mut banks, "BSN0601", "BSN");
    push_bank(&mut banks, "CIT0217", "Citibank Berhad");
    push_bank(&mut banks, "HLB0224", "Hong Leong Bank");
    push_bank(&mut banks, "HSBC0223", "HSBC Bank");
    push_bank(&mut banks, "KFH0346", "Kuwait Finance House");
    push_bank(&mut banks, "MB2U0227", "Maybank2u");
    push_bank(&mut banks, "MBB0227", "Maybank2E");
    push_bank(&mut banks, "MBB0228", "Maybank2E");
    push_bank(&mut banks, "OCBC0229", "OCBC Bank");
    push_bank(&mut banks, "PBB0233", "Public Bank");
    push_bank(&mut banks, "RHB0218", "RHB Now");
    push_bank(&mut banks, "SCB0216", "Standard Chartered");
    push_bank(&mut banks, "UOB0226", "UOB Bank");
    banks
}

/// The seven stand-in banks that only staging knows.
pub fn staging_test_banks() -> (banks: Vec<FpxBank>)
    ensures
        banks.deep_view() == staging_bank_list(),
{
    let mut banks: Vec<FpxBank> = Vec::new();
    push_bank(&mut banks, "TEST0001", "Test 0001");
    push_bank(&mut banks, "TEST0002", "Test 0002");
    push_bank(&mut banks, "TEST0003", "Test 0003");
    push_bank(&mut banks, "TEST0004", "Test 0004");
    push_bank(&mut banks, "TEST0021", "Test 0021");
    push_bank(&mut banks, "TEST0022", "Test 0022");
    push_bank(&mut banks, "TEST0023", "Test 0023");
    banks
}

/// Where bank verifications are created.
pub open spec fn bank_verifications_path() -> Seq<char> {
    "/api/v3/bank_verification_services"@
}

/// The request that reads the verification of an account.
pub open spec fn get_bank_verification_request(
    client: ClientView,
    bank_account_number: Seq<char>,
) -> RequestView {
    read_request(client, "/api/v3/bank_verification_services/"@ + bank_account_number)
}

/// The request that asks for `bank` to be verified.
pub open spec fn create_bank_verification_request(
    client: ClientView,
    bank: BankView,
) -> RequestView {
    create_request(client, bank_verifications_path(), Json::Object(bank_object(bank)))
}

/// Collects the fields of a bank verification to create.
pub struct CreateBankVerificationBuilder<'a> {
    client: &'a BillplzClient,
    bank: Bank,
}

impl<'a> CreateBankVerificationBuilder<'a> {
    /// The client the request will be made for.
    pub closed spec fn client(&self) -> ClientView {
        self.client@
    }

    /// The verification as collected so far.
    pub closed spec fn bank(&self) -> BankView {
        self.bank@
    }

    /// A builder for the verification of a person's account.
    pub(crate) fn new(
        client: &'a BillplzClient,
        name: &str,
        id_no: &str,
        acc_no: &str,
        code: &str,
    ) -> (builder: Self)
        ensures
            builder.client() == client@,
            builder.bank() == (BankView {
                name: name@,
                id_no: id_no@,
                acc_no: acc_no@,
                code: code@,
                organization: false,
            }),
    {
        CreateBankVerificationBuilder {
            client,
            bank: Bank {
                name: String::from_str(name),
                id_no: String::from_str(id_no),
                acc_no: String::from_str(acc_no),
                code: String::from_str(code),
                organization: false,
            },
        }
    }

    /// Sets whether the account belongs to an organization. Unless set, it
    /// does not.
    pub fn organization(self, organization: bool) -> (builder: Self)
        ensures
            builder.client() == self.client(),
            builder.bank() == (BankView { organization, ..self.bank() }),
    {
        let mut builder = self;
        builder.bank.organization = organization;
        builder
    }

    /// Consumes the builder and gives the request that creates the
    /// verification. The reply goes to [`BillplzClient::passthrough`].
    pub fn send(self) -> (request: Request)
        ensures
            request@ == create_bank_verification_request(self.client(), self.bank()),
    {
        let body = self.bank.to_json();
        self.client.create("/api/v3/bank_verification_services", body)
    }
}

impl BillplzClient {
    /// The reference list of FPX banks: the real banks, followed in staging
    /// by the stand-in banks. Made anew on each call.
    pub fn get_fpx_banks(&self) -> (banks: Vec<FpxBank>)
        ensures
            banks.deep_view() == fpx_bank_list(self@.environment),
    {
        let mut banks = production_banks();
        match self.environment() {
            Some(Environment::Staging) => {
                let mut extra = staging_test_banks();
                banks.append(&mut extra);
            },
            _ => {},
        }
        banks
    }

    /// The request that reads the verification of an account. The reply goes
    /// to [`BillplzClient::passthrough`].
    pub fn get_bank_verification(&self, bank_account_number: &str) -> (request: Request)
        ensures
            request@ == get_bank_verification_request(self@, bank_account_number@),
    {
        self.read("/api/v3/bank_verification_services/", bank_account_number)
    }

    /// Starts the verification of a bank account.
    pub fn create_bank_verification(
        &self,
        name: &str,
        id_no: &str,
        acc_no: &str,
        code: &str,
    ) -> (builder: CreateBankVerificationBuilder<'_>)
        ensures
            builder.client() == self@,
            builder.bank() == (BankView {
                name: name@,
                id_no: id_no@,
                acc_no: acc_no@,
                code: code@,
                organization: false,
            }),
    {
        CreateBankVerificationBuilder::new(self, name, id_no, acc_no, code)
    }
}

} // verus!

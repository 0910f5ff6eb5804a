use vstd::prelude::*;
use crate::addr_map::AddrMap;

verus! {

/// Failure conditions of the companion round-based price feed.
#[derive(PartialEq, Eq, Debug)]
pub enum ContractError {
    Std,
    CannotMigrate { previous_contract: String },
    CannotMigrateVersion { previous_version: String },
    Forbidden,
}

/// What instantiation of the round feed carries: nothing.
pub struct InstantiateMsg {}

/// What migration of the round feed carries: nothing.
pub struct MigrateMsg {}

/// The commands of the round feed.
pub enum ExecuteMsg {
    SetAdmin { admin: String, status: bool },
    SetLatestAnswer(i128),
}

/// The queries of the round feed.
pub enum QueryMsg {
    GetLatestRound,
    GetLatestAnswer,
    GetRoundData { round_id: u128 },
}

/// A round-feed query's answer, as plain values the host serializes.
#[derive(Clone, Copy, PartialEq, Eq, Structural, Debug)]
pub enum QueryAnswer {
    Round(u128),
    Answer(i128),
    RoundData(GetRoundDataResult),
}

/// The latest round: its number and its answer.
#[derive(Clone, Copy, PartialEq, Eq, Structural, Debug)]
pub struct PriceFeedState {
    pub round_id: u128,
    pub answer: i128,
}

impl Default for PriceFeedState {
    fn default() -> (r: Self)
        ensures
            r == (PriceFeedState { round_id: 0, answer: 0 }),
    {
        PriceFeedState { round_id: 0, answer: 0 }
    }
}

/// One historical round as handed to queriers; only the answer is
/// tracked, the remaining fields are reported as zero.
#[derive(Clone, Copy, PartialEq, Eq, Structural, Debug)]
pub struct GetRoundDataResult {
    pub round_id: u128,
    pub answer: i128,
    pub started_at: u128,
    pub updated_at: u128,
    pub answered_in_round: u128,
}

/// The whole persistent store of the round feed, as one explicit
/// value: the governor, the admin set, the latest round, and every
/// answer by round number (round `i + 1` at position `i`).
pub struct RoundStore {
    pub gov: String,
    pub admins: AddrMap<bool>,
    pub latest: PriceFeedState,
    pub answers: Vec<i128>,
}

/// The mathematical model of the round feed's store.
pub ghost struct RoundView {
    pub gov: Seq<char>,
    pub admins: Map<Seq<char>, bool>,
    pub latest: PriceFeedState,
    pub answers: Seq<i128>,
}

impl View for RoundStore {
    type V = RoundView;

    open spec fn view(&self) -> RoundView {
        RoundView {
            gov: self.gov@,
            admins: self.admins.as_map(),
            latest: self.latest,
            answers: self.answers@,
        }
    }
}

impl RoundView {
    /// Whether `account` is an active admin.
    pub open spec fn admin_of(self, account: Seq<char>) -> bool {
        self.admins.contains_key(account) && self.admins[account]
    }
}

impl RoundStore {
    /// Well-formed: the admin map holds each key once and the round
    /// counter equals the number of stored answers.
    pub open spec fn wf(self) -> bool {
        &&& self.admins.wf()
        &&& self.latest.round_id == self.answers@.len()
    }
}

/// Create the store: the instantiating sender becomes governor and
/// first admin, and the round counter starts at zero.
pub fn instantiate(sender: String) -> (r: RoundStore)
    ensures
        r.wf(),
        r@.gov == sender@,
        r@.admins == Map::<Seq<char>, bool>::empty().insert(sender@, true),
        r@.latest == (PriceFeedState { round_id: 0, answer: 0 }),
        r@.answers == Seq::<i128>::empty(),
{
    let mut admins: AddrMap<bool> = AddrMap::new();
    admins.insert(&sender, true);
    RoundStore { gov: sender, admins, latest: PriceFeedState { round_id: 0, answer: 0 }, answers: Vec::new() }
}

/// Only an account whose admin flag is set passes.
pub fn check_admin(store: &RoundStore, sender: &String) -> (r: Result<(), ContractError>)
    requires
        store.wf(),
    ensures
        r is Ok <==> store@.admin_of(sender@),
        r is Err ==> r == Err::<(), ContractError>(ContractError::Forbidden),
{
    match store.admins.get(sender) {
        Some(true) => Ok(()),
        _ => Err(ContractError::Forbidden),
    }
}

/// Toggle an account's admin role; governor only.
pub fn set_admin(store: &mut RoundStore, sender: &String, admin: &String, status: bool) -> (r:
    Result<(), ContractError>)
    requires
        old(store).wf(),
    ensures
        final(store).wf(),
        sender@ != old(store)@.gov ==> r == Err::<(), ContractError>(ContractError::Forbidden)
            && final(store)@ == old(store)@,
        sender@ == old(store)@.gov ==> r == Ok::<(), ContractError>(()) && final(store)@ == (
        RoundView { admins: old(store)@.admins.insert(admin@, status), ..old(store)@ }),
{
    if *sender != store.gov {
        return Err(ContractError::Forbidden);
    }
    store.admins.insert(admin, status);
    proof {
        assert(store@ =~= (RoundView {
            admins: old(store)@.admins.insert(admin@, status),
            ..old(store)@
        }));
    }
    Ok(())
}

/// Record a new answer: the round counter steps up by one and the
/// answer is stored both as the latest and under its round number.
/// Admins only.
pub fn set_latest_answer(store: &mut RoundStore, sender: &String, answer: i128) -> (r: Result<
    u128,
    ContractError,
>)
    requires
        old(store).wf(),
    ensures
        final(store).wf(),
        !old(store)@.admin_of(sender@) ==> r == Err::<u128, ContractError>(
            ContractError::Forbidden,
        ) && final(store)@ == old(store)@,
        old(store)@.admin_of(sender@) ==> r == Ok::<u128, ContractError>(
            (old(store)@.latest.round_id + 1) as u128,
        ) && final(store)@ == (RoundView {
            latest: PriceFeedState {
                round_id: (old(store)@.latest.round_id + 1) as u128,
                answer,
            },
            answers: old(store)@.answers.push(answer),
            ..old(store)@
        }),
{
    if let Err(e) = check_admin(store, sender) {
        return Err(e);
    }
    let _len: usize = store.answers.len();
    let new_round = store.latest.round_id + 1;
    store.answers.push(answer);
    store.latest = PriceFeedState { round_id: new_round, answer };
    proof {
        assert(store@ =~= (RoundView {
            latest: PriceFeedState { round_id: new_round, answer },
            answers: old(store)@.answers.push(answer),
            ..old(store)@
        }));
    }
    Ok(new_round)
}

/// The answer stored for a round; zero for rounds never answered.
pub open spec fn answer_of(v: RoundView, round_id: u128) -> i128 {
    if 1 <= round_id <= v.answers.len() {
        v.answers[round_id - 1]
    } else {
        0
    }
}

/// The data of one round as queriers see it.
pub fn get_round_data(store: &RoundStore, round_id: u128) -> (r: GetRoundDataResult)
    requires
        store.wf(),
    ensures
        r == (GetRoundDataResult {
            round_id,
            answer: answer_of(store@, round_id),
            started_at: 0,
            updated_at: 0,
            answered_in_round: 0,
        }),
{
    let n = store.answers.len();
    let answer: i128 = if 1 <= round_id && round_id <= n as u128 {
        store.answers[(round_id - 1) as usize]
    } else {
        0
    };
    GetRoundDataResult { round_id, answer, started_at: 0, updated_at: 0, answered_in_round: 0 }
}

/// Dispatch one round-feed command against the store.
pub fn execute(store: &mut RoundStore, sender: &String, msg: ExecuteMsg) -> (r: Result<
    (),
    ContractError,
>)
    requires
        old(store).wf(),
    ensures
        final(store).wf(),
        match msg {
            ExecuteMsg::SetAdmin { admin, status } => {
                if sender@ == old(store)@.gov {
                    r == Ok::<(), ContractError>(()) && final(store)@ == (RoundView {
                        admins: old(store)@.admins.insert(admin@, status),
                        ..old(store)@
                    })
                } else {
                    r == Err::<(), ContractError>(ContractError::Forbidden) && final(store)@
                        == old(store)@
                }
            },
            ExecuteMsg::SetLatestAnswer(answer) => {
                if old(store)@.admin_of(sender@) {
                    r == Ok::<(), ContractError>(()) && final(store)@ == (RoundView {
                        latest: PriceFeedState {
                            round_id: (old(store)@.latest.round_id + 1) as u128,
                            answer,
                        },
                        answers: old(store)@.answers.push(answer),
                        ..old(store)@
                    })
                } else {
                    r == Err::<(), ContractError>(ContractError::Forbidden) && final(store)@
                        == old(store)@
                }
            },
        },
{
    match msg {
        ExecuteMsg::SetAdmin { admin, status } => set_admin(store, sender, &admin, status),
        ExecuteMsg::SetLatestAnswer(answer) => match set_latest_answer(store, sender, answer) {
            Ok(_) => Ok(()),
            Err(e) => Err(e),
        },
    }
}

/// Answer one read-only round-feed query against the store.
pub fn query(store: &RoundStore, msg: QueryMsg) -> (r: QueryAnswer)
    requires
        store.wf(),
    ensures
        match msg {
            QueryMsg::GetLatestRound => r == QueryAnswer::Round(store@.latest.round_id),
            QueryMsg::GetLatestAnswer => r == QueryAnswer::Answer(store@.latest.answer),
            QueryMsg::GetRoundData { round_id } => r == QueryAnswer::RoundData(
                GetRoundDataResult {
                    round_id,
                    answer: answer_of(store@, round_id),
                    started_at: 0,
                    updated_at: 0,
                    answered_in_round: 0,
                },
            ),
        },
{
    match msg {
        QueryMsg::GetLatestRound => QueryAnswer::Round(store.latest.round_id),
        QueryMsg::GetLatestAnswer => QueryAnswer::Answer(store.latest.answer),
        QueryMsg::GetRoundData { round_id } => QueryAnswer::RoundData(
            get_round_data(store, round_id),
        ),
    }
}

/// Whether a version text parses under semantic versioning.
pub uninterp spec fn semver_parses(s: Seq<char>) -> bool;

/// Whether the version text `a` denotes a strictly newer version than
/// `b`, under the ordering semver defines on parsed versions
/// (numeric components first, then pre-release precedence, with build
/// metadata breaking ties); a function of the two texts alone.
pub uninterp spec fn semver_newer(a: Seq<char>, b: Seq<char>) -> bool;

#[verifier::external_type_specification]
#[verifier::external_body]
pub struct ExSemverError(semver::Error);

/// Relies on semver::Version::parse and Version's ordering: parses the
/// two version texts and compares them, succeeding exactly when both
/// parse.
#[verifier::external_body]
fn version_gt(a: &str, b: &str) -> (r: Result<bool, semver::Error>)
    ensures
        match r {
            Ok(newer) => semver_parses(a@) && semver_parses(b@) && newer == semver_newer(a@, b@),
            Err(_) => !(semver_parses(a@) && semver_parses(b@)),
        },
{
    match (semver::Version::parse(a), semver::Version::parse(b)) {
        (Ok(va), Ok(vb)) => Ok(va > vb),
        (Err(e), _) => Err(e),
        (_, Err(e)) => Err(e),
    }
}

/// Gate a migration: the stored contract data must carry this
/// contract's name and a version no newer than the one migrating in.
/// A version text that does not parse fails as a generic error.
pub fn migrate(
    stored_contract: &String,
    stored_version: &String,
    contract_name: &String,
    contract_version: &String,
) -> (r: Result<(), ContractError>)
    ensures
        r is Ok <==> semver_parses(stored_version@) && semver_parses(contract_version@)
            && !semver_newer(stored_version@, contract_version@) && stored_contract@
            == contract_name@,
        !(semver_parses(stored_version@) && semver_parses(contract_version@)) ==> r == Err::<
            (),
            ContractError,
        >(ContractError::Std),
        semver_parses(stored_version@) && semver_parses(contract_version@) && semver_newer(
            stored_version@,
            contract_version@,
        ) ==> (r matches Err(ContractError::CannotMigrateVersion { previous_version })
            && previous_version@ == stored_version@),
        semver_parses(stored_version@) && semver_parses(contract_version@) && !semver_newer(
            stored_version@,
            contract_version@,
        ) && stored_contract@ != contract_name@ ==> (r matches Err(
            ContractError::CannotMigrate { previous_contract },
        ) && previous_contract@ == stored_contract@),
{
    let newer = match version_gt(stored_version.as_str(), contract_version.as_str()) {
        Ok(b) => b,
        Err(_) => {
            return Err(ContractError::Std);
        },
    };
    if newer {
        return Err(
            ContractError::CannotMigrateVersion { previous_version: stored_version.clone() },
        );
    }
    if *contract_name != *stored_contract {
        return Err(
            ContractError::CannotMigrate { previous_contract: stored_contract.clone() },
        );
    }
    Ok(())
}

} // verus!

//! Records supplied by the caller of a batched operation.

use vstd::prelude::*;
use vstd::string::StringSliceAdditionalSpecFns;
use crate::address::{
    derive_record_address, matches_expected, record_address, spec_asset_address, spec_bet_address,
    spec_group_asset_address, Address,
};
use crate::constants::{ASSET_SEED, BET_SEED, GROUP_ASSET_SEED};
use crate::error::GoldRushError;
use crate::state::asset::Asset;
use crate::state::bet::Bet;
use crate::state::group_asset::GroupAsset;

verus! {

/// A record as the caller handed it in: where it claims to live, who owns
/// it, and what it decodes to. Nothing in it is trusted until the engine
/// has recomputed the address the record must have.
#[derive(Clone, Copy, Debug)]
pub struct RecordHandle<T> {
    pub address: Address,
    pub owner: Address,
    /// The decoded contents, or `None` when the bytes did not decode.
    pub data: Option<T>,
}

/// The fault of the first record of a batch that has one.
pub open spec fn first_fault(faults: Seq<Option<GoldRushError>>) -> Option<GoldRushError>
    decreases faults.len(),
{
    if faults.len() == 0 {
        None
    } else if faults[0] is Some {
        faults[0]
    } else {
        first_fault(faults.drop_first())
    }
}

/// A batch has a first fault exactly when some record has a fault, and it is
/// the fault of the earliest such record.
pub proof fn lemma_first_fault(faults: Seq<Option<GoldRushError>>)
    ensures
        first_fault(faults) is None <==> forall|i: int| 0 <= i < faults.len() ==> faults[i] is None,
        first_fault(faults) is Some ==> exists|i: int|
            0 <= i < faults.len() && faults[i] == first_fault(faults) && forall|j: int|
                0 <= j < i ==> faults[j] is None,
    decreases faults.len(),
{
    if faults.len() > 0 {
        let rest = faults.drop_first();
        lemma_first_fault(rest);
        if faults[0] is None {
            assert forall|i: int| 0 <= i < rest.len() implies rest[i] == faults[i + 1] by {}
            if first_fault(rest) is Some {
                let k = choose|i: int|
                    0 <= i < rest.len() && rest[i] == first_fault(rest) && forall|j: int|
                        0 <= j < i ==> rest[j] is None;
                assert forall|j: int| 0 <= j < k + 1 implies faults[j] is None by {
                    if j > 0 {
                        assert(rest[j - 1] is None);
                    }
                }
            } else {
                assert forall|i: int| 0 <= i < faults.len() implies faults[i] is None by {
                    if i > 0 {
                        assert(rest[i - 1] is None);
                    }
                }
            }
        }
    }
}

/// Whether `address` is the canonical address of the record of kind `tag`
/// numbered `id` under `parent`.
pub fn is_canonical(address: &Address, tag: &str, parent: &Address, id: u64, program_id: &Address) -> (r:
    bool)
    ensures
        r == (record_address(tag.spec_bytes(), *parent, id, *program_id) == Some(address@)),
{
    let expected = derive_record_address(tag, parent, id, program_id);
    proof {
        if expected is Some {
            Address::lemma_view_injective(*address, expected->0);
        }
    }
    matches_expected(address, &expected)
}

impl RecordHandle<Bet> {
    /// What is wrong with a handle offered as a bet of the round at `round`:
    /// it is not owned by the engine, it does not decode, or it does not
    /// live at the address of the bet it decodes to.
    pub open spec fn fault(&self, round: Address, program_id: Address) -> Option<GoldRushError> {
        if self.owner != program_id {
            Some(GoldRushError::InvalidBetAccount)
        } else if self.data is None {
            Some(GoldRushError::InvalidBetAccountData)
        } else if spec_bet_address(round, self.data->0.id, program_id) != Some(self.address@) {
            Some(GoldRushError::InvalidBetAccount)
        } else {
            None
        }
    }

    /// Checks one handle offered as a bet of the round at `round`.
    pub fn check(&self, round: &Address, program_id: &Address) -> (r: Result<Bet, GoldRushError>)
        ensures
            match r {
                Ok(bet) => self.fault(*round, *program_id) is None && self.data == Some(bet),
                Err(e) => self.fault(*round, *program_id) == Some(e),
            },
    {
        if self.owner != *program_id {
            return Err(GoldRushError::InvalidBetAccount);
        }
        let bet = match self.data {
            Some(bet) => bet,
            None => {
                return Err(GoldRushError::InvalidBetAccountData);
            },
        };
        if !is_canonical(&self.address, BET_SEED, round, bet.id, program_id) {
            return Err(GoldRushError::InvalidBetAccount);
        }
        Ok(bet)
    }
}

/// The faults of a batch of bet handles, record by record.
pub open spec fn bet_faults(records: Seq<RecordHandle<Bet>>, round: Address, program_id: Address) -> Seq<
    Option<GoldRushError>,
> {
    Seq::new(records.len(), |i: int| records[i].fault(round, program_id))
}

/// The bets a batch of handles decodes to.
pub open spec fn decoded_bets(records: Seq<RecordHandle<Bet>>) -> Seq<Bet> {
    Seq::new(records.len(), |i: int| records[i].data->0)
}

/// Checks a batch of handles offered as bets of the round at `round`, in
/// order, and hands out the bets. The first handle at fault decides the
/// error.
pub fn check_bet_records(records: &Vec<RecordHandle<Bet>>, round: &Address, program_id: &Address) -> (r:
    Result<Vec<Bet>, GoldRushError>)
    ensures
        match r {
            Ok(bets) => first_fault(bet_faults(records@, *round, *program_id)) is None && bets@
                == decoded_bets(records@),
            Err(e) => first_fault(bet_faults(records@, *round, *program_id)) == Some(e),
        },
{
    let ghost faults = bet_faults(records@, *round, *program_id);
    let mut bets: Vec<Bet> = Vec::new();
    let mut i: usize = 0;
    proof {
        assert(faults.skip(0) =~= faults);
    }
    while i < records.len()
        invariant
            i <= records@.len(),
            faults == bet_faults(records@, *round, *program_id),
            first_fault(faults) == first_fault(faults.skip(i as int)),
            bets@.len() == i,
            forall|j: int| 0 <= j < i ==> bets@[j] == records@[j].data->0,
        decreases records@.len() - i,
    {
        proof {
            assert(faults.skip(i as int).drop_first() =~= faults.skip(i + 1));
        }
        match records[i].check(round, program_id) {
            Ok(bet) => {
                bets.push(bet);
            },
            Err(e) => {
                return Err(e);
            },
        }
        i += 1;
    }
    Ok(bets)
}

impl RecordHandle<Asset> {
    /// What is wrong with a handle offered as an asset of the group at
    /// `group` in the round at `round`: it is not owned by the engine, it
    /// does not decode, it does not live at the address of the asset it
    /// decodes to, or it names another group or round.
    pub open spec fn fault(&self, group: Address, round: Address, program_id: Address) -> Option<
        GoldRushError,
    > {
        if self.owner != program_id {
            Some(GoldRushError::InvalidAssetAccount)
        } else if self.data is None {
            Some(GoldRushError::InvalidAssetAccountData)
        } else if spec_asset_address(group, self.data->0.id, program_id) != Some(self.address@) {
            Some(GoldRushError::InvalidAssetAccount)
        } else if self.data->0.group != group {
            Some(GoldRushError::InvalidAssetAccount)
        } else if self.data->0.round != round {
            Some(GoldRushError::InvalidAssetAccount)
        } else {
            None
        }
    }

    /// Checks one handle offered as an asset of the group at `group`.
    pub fn check(&self, group: &Address, round: &Address, program_id: &Address) -> (r: Result<
        Asset,
        GoldRushError,
    >)
        ensures
            match r {
                Ok(asset) => self.fault(*group, *round, *program_id) is None && self.data == Some(asset),
                Err(e) => self.fault(*group, *round, *program_id) == Some(e),
            },
    {
        if self.owner != *program_id {
            return Err(GoldRushError::InvalidAssetAccount);
        }
        let asset = match self.data {
            Some(asset) => asset,
            None => {
                return Err(GoldRushError::InvalidAssetAccountData);
            },
        };
        if !is_canonical(&self.address, ASSET_SEED, group, asset.id, program_id) {
            return Err(GoldRushError::InvalidAssetAccount);
        }
        if asset.group != *group {
            return Err(GoldRushError::InvalidAssetAccount);
        }
        if asset.round != *round {
            return Err(GoldRushError::InvalidAssetAccount);
        }
        Ok(asset)
    }
}

/// The faults of a batch of asset handles, record by record.
pub open spec fn asset_faults(
    records: Seq<RecordHandle<Asset>>,
    group: Address,
    round: Address,
    program_id: Address,
) -> Seq<Option<GoldRushError>> {
    Seq::new(records.len(), |i: int| records[i].fault(group, round, program_id))
}

/// The assets a batch of handles decodes to.
pub open spec fn decoded_assets(records: Seq<RecordHandle<Asset>>) -> Seq<Asset> {
    Seq::new(records.len(), |i: int| records[i].data->0)
}

/// Checks a batch of handles offered as assets of the group at `group`, in
/// order, and hands out the assets. The first handle at fault decides the
/// error.
pub fn check_asset_records(
    records: &Vec<RecordHandle<Asset>>,
    group: &Address,
    round: &Address,
    program_id: &Address,
) -> (r: Result<Vec<Asset>, GoldRushError>)
    ensures
        match r {
            Ok(assets) => first_fault(asset_faults(records@, *group, *round, *program_id)) is None
                && assets@ == decoded_assets(records@),
            Err(e) => first_fault(asset_faults(records@, *group, *round, *program_id)) == Some(e),
        },
{
    let ghost faults = asset_faults(records@, *group, *round, *program_id);
    let mut assets: Vec<Asset> = Vec::new();
    let mut i: usize = 0;
    proof {
        assert(faults.skip(0) =~= faults);
    }
    while i < records.len()
        invariant
            i <= records@.len(),
            faults == asset_faults(records@, *group, *round, *program_id),
            first_fault(faults) == first_fault(faults.skip(i as int)),
            assets@.len() == i,
            forall|j: int| 0 <= j < i ==> assets@[j] == records@[j].data->0,
        decreases records@.len() - i,
    {
        proof {
            assert(faults.skip(i as int).drop_first() =~= faults.skip(i + 1));
        }
        match records[i].check(group, round, program_id) {
            Ok(asset) => {
                assets.push(asset);
            },
            Err(e) => {
                return Err(e);
            },
        }
        i += 1;
    }
    Ok(assets)
}

impl RecordHandle<GroupAsset> {
    /// What is wrong with a handle offered as a group of the round at
    /// `round`: it is not owned by the engine, it does not decode, it does
    /// not live at the address of the group it decodes to, or it names
    /// another round. `bad_account` and `bad_data` are the errors the
    /// operation at hand reports for a wrong record and for one that does
    /// not decode.
    pub open spec fn fault(
        &self,
        round: Address,
        program_id: Address,
        bad_account: GoldRushError,
        bad_data: GoldRushError,
    ) -> Option<GoldRushError> {
        if self.owner != program_id {
            Some(bad_account)
        } else if self.data is None {
            Some(bad_data)
        } else if spec_group_asset_address(round, self.data->0.id, program_id) != Some(self.address@) {
            Some(bad_account)
        } else if self.data->0.round != round {
            Some(bad_account)
        } else {
            None
        }
    }

    /// Checks one handle offered as a group of the round at `round`.
    pub fn check(
        &self,
        round: &Address,
        program_id: &Address,
        bad_account: GoldRushError,
        bad_data: GoldRushError,
    ) -> (r: Result<GroupAsset, GoldRushError>)
        ensures
            match r {
                Ok(group) => self.fault(*round, *program_id, bad_account, bad_data) is None && self.data
                    == Some(group),
                Err(e) => self.fault(*round, *program_id, bad_account, bad_data) == Some(e),
            },
    {
        if self.owner != *program_id {
            return Err(bad_account);
        }
        let group = match self.data {
            Some(group) => group,
            None => {
                return Err(bad_data);
            },
        };
        if !is_canonical(&self.address, GROUP_ASSET_SEED, round, group.id, program_id) {
            return Err(bad_account);
        }
        if group.round != *round {
            return Err(bad_account);
        }
        Ok(group)
    }
}

/// The faults of a batch of group handles, record by record.
pub open spec fn group_faults(
    records: Seq<RecordHandle<GroupAsset>>,
    round: Address,
    program_id: Address,
    bad_account: GoldRushError,
    bad_data: GoldRushError,
) -> Seq<Option<GoldRushError>> {
    Seq::new(records.len(), |i: int| records[i].fault(round, program_id, bad_account, bad_data))
}

/// The groups a batch of handles decodes to.
pub open spec fn decoded_groups(records: Seq<RecordHandle<GroupAsset>>) -> Seq<GroupAsset> {
    Seq::new(records.len(), |i: int| records[i].data->0)
}

/// Checks a batch of handles offered as groups of the round at `round`, in
/// order, and hands out the groups. The first handle at fault decides the
/// error.
pub fn check_group_records(
    records: &Vec<RecordHandle<GroupAsset>>,
    round: &Address,
    program_id: &Address,
    bad_account: GoldRushError,
    bad_data: GoldRushError,
) -> (r: Result<Vec<GroupAsset>, GoldRushError>)
    ensures
        match r {
            Ok(groups) => first_fault(
                group_faults(records@, *round, *program_id, bad_account, bad_data),
            ) is None && groups@ == decoded_groups(records@),
            Err(e) => first_fault(group_faults(records@, *round, *program_id, bad_account, bad_data))
                == Some(e),
        },
{
    let ghost faults = group_faults(records@, *round, *program_id, bad_account, bad_data);
    let mut groups: Vec<GroupAsset> = Vec::new();
    let mut i: usize = 0;
    proof {
        assert(faults.skip(0) =~= faults);
    }
    while i < records.len()
        invariant
            i <= records@.len(),
            faults == group_faults(records@, *round, *program_id, bad_account, bad_data),
            first_fault(faults) == first_fault(faults.skip(i as int)),
            groups@.len() == i,
            forall|j: int| 0 <= j < i ==> groups@[j] == records@[j].data->0,
        decreases records@.len() - i,
    {
        proof {
            assert(faults.skip(i as int).drop_first() =~= faults.skip(i + 1));
        }
        match records[i].check(round, program_id, bad_account, bad_data) {
            Ok(group) => {
                groups.push(group);
            },
            Err(e) => {
                return Err(e);
            },
        }
        i += 1;
    }
    Ok(groups)
}

} // verus!

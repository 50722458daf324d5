//! The regional carbon-accounting oracle: an authority-mutable carbon price,
//! a capacity-bounded collection of per-region consumption and emission
//! parameters keyed by region code, and a read-only trip-emission query.
//!
//! Timestamps come from the host's clock and are passed in by the caller of
//! each operation that records one.

use crate::account::AccountId;
use vstd::arithmetic::mul::lemma_mul_upper_bound;
use vstd::prelude::*;

verus! {

/// Errors the oracle reports; each is terminal for the operation that
/// raised it and leaves the state unchanged.
#[derive(Clone, Copy, Debug, PartialEq, Eq, Structural)]
pub enum ErrorCode {
    /// The caller is not the authority recorded at creation.
    Unauthorized,
    /// The region code exceeds the 10-byte bound.
    RegionCodeTooLong,
    /// The collection already holds 20 regions and the code is new.
    MaxRegionsExceeded,
    /// No stored region matches the queried code.
    RegionNotFound,
}

/// Vehicle categories a trip calculation can select a consumption figure for.
#[derive(Clone, Copy, Debug, PartialEq, Eq, Structural)]
pub enum VehicleType {
    Standard,
    Electric,
    Hybrid,
}

/// Per-region consumption and emission parameters.
#[derive(Clone, Debug)]
pub struct RegionData {
    /// Region identifier, at most 10 bytes, unique within the collection.
    pub code: String,
    /// Fuel use per km for standard vehicles (ml/km).
    pub avg_vehicle_consumption_per_km: u32,
    /// Energy use per km for electric vehicles (Wh/km).
    pub avg_electric_consumption_per_km: u32,
    /// Fuel use per km for hybrid vehicles (ml/km).
    pub avg_hybrid_consumption_per_km: u32,
    /// Grams of CO2 emitted per unit consumed.
    pub emission_factor: u32,
    /// Timestamp of the last write to this entry.
    pub last_update: i64,
}

/// The result of one trip calculation; ephemeral, never stored.
#[derive(Clone, Debug)]
pub struct TripCalculation {
    pub region: String,
    pub vehicle_type: VehicleType,
    pub distance_km: u32,
    pub carbon_emissions_grams: u64,
    /// Cost in millionths of a currency unit.
    pub carbon_cost_microcents: u64,
    pub timestamp: i64,
}

/// The oracle state: an immutable authority, the carbon price in cents per
/// ton with its update timestamp, and the bounded region collection.
pub struct CarbonOracle {
    authority: AccountId,
    carbon_price_per_ton: u64,
    last_carbon_price_update: i64,
    regions: Vec<RegionData>,
}

/// The UTF-8 byte length of a region code, as `str::len` reports it; codes
/// are capped at 10 bytes.
pub open spec fn code_byte_len(code: Seq<char>) -> usize {
    vstd::utf8::encode_utf8(code).len() as usize
}

/// Whether some stored region carries the given code.
pub open spec fn has_region(regions: Seq<RegionData>, code: Seq<char>) -> bool {
    exists|i: int| 0 <= i < regions.len() && regions[i].code@ == code
}

/// A region entry overwritten in place: the stored code is kept, the four
/// numeric parameters are replaced and the timestamp advances.
pub open spec fn spec_region_updated(
    entry: RegionData,
    avg_vehicle_consumption_per_km: u32,
    avg_electric_consumption_per_km: u32,
    avg_hybrid_consumption_per_km: u32,
    emission_factor: u32,
    now: i64,
) -> RegionData {
    RegionData {
        code: entry.code,
        avg_vehicle_consumption_per_km,
        avg_electric_consumption_per_km,
        avg_hybrid_consumption_per_km,
        emission_factor,
        last_update: now,
    }
}

/// The consumption figure a region holds for a vehicle type.
pub open spec fn spec_consumption(region: RegionData, vehicle_type: VehicleType) -> u32 {
    match vehicle_type {
        VehicleType::Standard => region.avg_vehicle_consumption_per_km,
        VehicleType::Electric => region.avg_electric_consumption_per_km,
        VehicleType::Hybrid => region.avg_hybrid_consumption_per_km,
    }
}

/// Trip emissions in grams: consumption times emission factor times
/// distance, in wrapping 64-bit arithmetic, then divided by 1000 with
/// truncation, exactly as the stored parameters define it.
pub open spec fn spec_emissions_grams(
    region: RegionData,
    vehicle_type: VehicleType,
    distance_km: u32,
) -> u64 {
    (((spec_consumption(region, vehicle_type) * region.emission_factor * distance_km)
        % 0x1_0000_0000_0000_0000) / 1000) as u64
}

/// Trip cost in microcents: emissions in grams times the price in cents per
/// ton (wrapping 64-bit multiply), divided by the million grams in a ton.
pub open spec fn spec_cost_microcents(emissions_grams: u64, price_per_ton: u64) -> u64 {
    (((emissions_grams * price_per_ton) % 0x1_0000_0000_0000_0000) / 1_000_000) as u64
}

/// How one accepted `update_region_data` call transforms the oracle: price
/// and authority are untouched; a stored code is overwritten in place
/// (order-preserving), a new code is appended, and an append only happens
/// below the 20-entry capacity.
pub open spec fn upsert_applied(
    pre: CarbonOracle,
    post: CarbonOracle,
    code: String,
    avg_vehicle_consumption_per_km: u32,
    avg_electric_consumption_per_km: u32,
    avg_hybrid_consumption_per_km: u32,
    emission_factor: u32,
    now: i64,
) -> bool {
    &&& post.spec_authority() == pre.spec_authority()
    &&& post.spec_carbon_price() == pre.spec_carbon_price()
    &&& post.spec_last_price_update() == pre.spec_last_price_update()
    &&& if has_region(pre.spec_regions(), code@) {
        forall|i: int|
            0 <= i < pre.spec_regions().len() && pre.spec_regions()[i].code@ == code@
                ==> post.spec_regions() == pre.spec_regions().update(
                i,
                spec_region_updated(
                    pre.spec_regions()[i],
                    avg_vehicle_consumption_per_km,
                    avg_electric_consumption_per_km,
                    avg_hybrid_consumption_per_km,
                    emission_factor,
                    now,
                ),
            )
    } else {
        &&& pre.spec_regions().len() < 20
        &&& post.spec_regions() == pre.spec_regions().push(
            RegionData {
                code,
                avg_vehicle_consumption_per_km,
                avg_electric_consumption_per_km,
                avg_hybrid_consumption_per_km,
                emission_factor,
                last_update: now,
            },
        )
    }
}

impl CarbonOracle {
    /// The stored authority identity.
    pub closed spec fn spec_authority(self) -> AccountId {
        self.authority
    }

    /// The stored carbon price in cents per ton.
    pub closed spec fn spec_carbon_price(self) -> u64 {
        self.carbon_price_per_ton
    }

    /// The timestamp of the last price update.
    pub closed spec fn spec_last_price_update(self) -> i64 {
        self.last_carbon_price_update
    }

    /// The stored region entries, in insertion order.
    pub closed spec fn spec_regions(self) -> Seq<RegionData> {
        self.regions@
    }

    /// The state invariant: at most 20 regions, with pairwise distinct
    /// codes. Every operation preserves it.
    #[verifier::type_invariant]
    pub open spec fn wf(self) -> bool {
        &&& self.spec_regions().len() <= 20
        &&& forall|i: int, j: int|
            0 <= i < j < self.spec_regions().len() ==> self.spec_regions()[i].code@
                != self.spec_regions()[j].code@
    }

    /// Creates the oracle with the given authority, a zero carbon price and
    /// no regions. The authority is fixed for the life of the state.
    pub fn initialize(authority: AccountId, now: i64) -> (o: CarbonOracle)
        ensures
            o.spec_authority() == authority,
            o.spec_carbon_price() == 0,
            o.spec_last_price_update() == now,
            o.spec_regions() == Seq::<RegionData>::empty(),
    {
        let o = CarbonOracle {
            authority,
            carbon_price_per_ton: 0,
            last_carbon_price_update: now,
            regions: Vec::new(),
        };
        proof {
            assert(o.spec_regions() =~= Seq::<RegionData>::empty());
        }
        o
    }

    /// The stored authority identity.
    pub fn authority(&self) -> (r: &AccountId)
        ensures
            *r == self.spec_authority(),
    {
        &self.authority
    }

    /// The stored carbon price in cents per ton.
    pub fn carbon_price_per_ton(&self) -> (r: u64)
        ensures
            r == self.spec_carbon_price(),
    {
        self.carbon_price_per_ton
    }

    /// The timestamp of the last price update.
    pub fn last_carbon_price_update(&self) -> (r: i64)
        ensures
            r == self.spec_last_price_update(),
    {
        self.last_carbon_price_update
    }

    /// How many regions are stored; never more than 20.
    pub fn region_count(&self) -> (r: usize)
        ensures
            r == self.spec_regions().len(),
            r <= 20,
    {
        proof {
            use_type_invariant(&*self);
        }
        self.regions.len()
    }

    /// The stored entry for a region code, if any.
    pub fn get_region(&self, region_code: &String) -> (r: Option<&RegionData>)
        ensures
            match r {
                Option::None => !has_region(self.spec_regions(), region_code@),
                Option::Some(entry) => has_region(self.spec_regions(), region_code@)
                    && forall|i: int|
                    0 <= i < self.spec_regions().len() && self.spec_regions()[i].code@
                        == region_code@ ==> *entry == self.spec_regions()[i],
            },
    {
        proof {
            use_type_invariant(&*self);
        }
        match find_region_index(&self.regions, region_code) {
            Option::Some(i) => Option::Some(&self.regions[i]),
            Option::None => Option::None,
        }
    }

    /// Overwrites the carbon price and records the update timestamp. Only
    /// the authority may do so; a rejected call leaves the state unchanged.
    pub fn update_carbon_price(&mut self, caller: &AccountId, price_eur_cents: u64, now: i64) -> (r:
        Result<(), ErrorCode>)
        ensures
            caller@ != old(self).spec_authority()@ ==> r == Err::<(), ErrorCode>(
                ErrorCode::Unauthorized,
            ) && *final(self) == *old(self),
            caller@ == old(self).spec_authority()@ ==> r == Ok::<(), ErrorCode>(())
                && final(self).spec_authority() == old(self).spec_authority()
                && final(self).spec_carbon_price() == price_eur_cents
                && final(self).spec_last_price_update() == now
                && final(self).spec_regions() == old(self).spec_regions(),
    {
        proof {
            use_type_invariant(&*self);
        }
        if !(*caller == self.authority) {
            return Err(ErrorCode::Unauthorized);
        }
        self.carbon_price_per_ton = price_eur_cents;
        self.last_carbon_price_update = now;
        Ok(())
    }

    /// Adds or overwrites a region's parameters: the authority gate, the
    /// 10-byte code bound, then an in-place overwrite of a stored code or an
    /// append of a new one while fewer than 20 regions are stored. A
    /// rejected call leaves the state unchanged.
    pub fn update_region_data(
        &mut self,
        caller: &AccountId,
        region_code: String,
        avg_vehicle_consumption_per_km: u32,
        avg_electric_consumption_per_km: u32,
        avg_hybrid_consumption_per_km: u32,
        region_emission_factor: u32,
        now: i64,
    ) -> (r: Result<(), ErrorCode>)
        ensures
            caller@ != old(self).spec_authority()@ ==> r == Err::<(), ErrorCode>(
                ErrorCode::Unauthorized,
            ) && *final(self) == *old(self),
            caller@ == old(self).spec_authority()@ && code_byte_len(region_code@) > 10 ==> r
                == Err::<(), ErrorCode>(ErrorCode::RegionCodeTooLong) && *final(self) == *old(self),
            caller@ == old(self).spec_authority()@ && code_byte_len(region_code@) <= 10
                && !has_region(old(self).spec_regions(), region_code@) && old(
                self,
            ).spec_regions().len() >= 20 ==> r == Err::<(), ErrorCode>(ErrorCode::MaxRegionsExceeded)
                && *final(self) == *old(self),
            caller@ == old(self).spec_authority()@ && code_byte_len(region_code@) <= 10 && (
            has_region(old(self).spec_regions(), region_code@) || old(self).spec_regions().len()
                < 20) ==> r == Ok::<(), ErrorCode>(()) && upsert_applied(
                *old(self),
                *final(self),
                region_code,
                avg_vehicle_consumption_per_km,
                avg_electric_consumption_per_km,
                avg_hybrid_consumption_per_km,
                region_emission_factor,
                now,
            ),
    {
        proof {
            use_type_invariant(&*self);
        }
        if !(*caller == self.authority) {
            return Err(ErrorCode::Unauthorized);
        }
        if region_code.as_str().len() > 10 {
            return Err(ErrorCode::RegionCodeTooLong);
        }
        let mut regions: Vec<RegionData> = Vec::new();
        core::mem::swap(&mut regions, &mut self.regions);
        let found = find_region_index(&regions, &region_code);
        let ghost pre_regions = regions@;
        match found {
            Option::Some(i) => {
                let updated = RegionData {
                    code: regions[i].code.clone(),
                    avg_vehicle_consumption_per_km,
                    avg_electric_consumption_per_km,
                    avg_hybrid_consumption_per_km,
                    emission_factor: region_emission_factor,
                    last_update: now,
                };
                regions[i] = updated;
                proof {
                    assert(regions@ == pre_regions.update(
                        i as int,
                        spec_region_updated(
                            pre_regions[i as int],
                            avg_vehicle_consumption_per_km,
                            avg_electric_consumption_per_km,
                            avg_hybrid_consumption_per_km,
                            region_emission_factor,
                            now,
                        ),
                    ));
                    assert forall|x: int, y: int|
                        0 <= x < y < regions@.len() implies regions@[x].code@
                        != regions@[y].code@ by {
                        assert(regions@[x].code@ == pre_regions[x].code@);
                        assert(regions@[y].code@ == pre_regions[y].code@);
                    }
                    assert forall|x: int|
                        0 <= x < pre_regions.len() && pre_regions[x].code@
                            == region_code@ implies x == i as int by {}
                }
            },
            Option::None => {
                if regions.len() >= 20 {
                    core::mem::swap(&mut regions, &mut self.regions);
                    return Err(ErrorCode::MaxRegionsExceeded);
                }
                regions.push(
                    RegionData {
                        code: region_code,
                        avg_vehicle_consumption_per_km,
                        avg_electric_consumption_per_km,
                        avg_hybrid_consumption_per_km,
                        emission_factor: region_emission_factor,
                        last_update: now,
                    },
                );
                proof {
                    assert forall|x: int, y: int|
                        0 <= x < y < regions@.len() implies regions@[x].code@
                        != regions@[y].code@ by {
                        if y == regions@.len() - 1 {
                            assert(pre_regions[x].code@ != region_code@);
                        } else {
                            assert(regions@[x].code@ == pre_regions[x].code@);
                            assert(regions@[y].code@ == pre_regions[y].code@);
                        }
                    }
                }
            },
        }
        core::mem::swap(&mut regions, &mut self.regions);
        Ok(())
    }

    /// Computes a trip's emissions and cost from the stored parameters of
    /// the named region: a read-only query open to anyone. Fails only when
    /// the region code is unknown.
    pub fn calculate_trip_carbon(
        &self,
        region_code: String,
        vehicle_type: VehicleType,
        distance_km: u32,
        now: i64,
    ) -> (r: Result<TripCalculation, ErrorCode>)
        ensures
            !has_region(self.spec_regions(), region_code@) ==> r == Err::<
                TripCalculation,
                ErrorCode,
            >(ErrorCode::RegionNotFound),
            forall|i: int|
                0 <= i < self.spec_regions().len() && self.spec_regions()[i].code@ == region_code@
                    ==> r == Ok::<TripCalculation, ErrorCode>(
                    (TripCalculation {
                        region: region_code,
                        vehicle_type,
                        distance_km,
                        carbon_emissions_grams: spec_emissions_grams(
                            self.spec_regions()[i],
                            vehicle_type,
                            distance_km,
                        ),
                        carbon_cost_microcents: spec_cost_microcents(
                            spec_emissions_grams(self.spec_regions()[i], vehicle_type, distance_km),
                            self.spec_carbon_price(),
                        ),
                        timestamp: now,
                    }),
                ),
    {
        proof {
            use_type_invariant(&*self);
        }
        let found = find_region_index(&self.regions, &region_code);
        let i = match found {
            Option::Some(i) => i,
            Option::None => {
                return Err(ErrorCode::RegionNotFound);
            },
        };
        let region = &self.regions[i];
        let consumption_per_km: u32 = match vehicle_type {
            VehicleType::Standard => region.avg_vehicle_consumption_per_km,
            VehicleType::Electric => region.avg_electric_consumption_per_km,
            VehicleType::Hybrid => region.avg_hybrid_consumption_per_km,
        };
        proof {
            lemma_mul_upper_bound(
                consumption_per_km as int,
                u32::MAX as int,
                region.emission_factor as int,
                u32::MAX as int,
            );
        }
        let unit_emissions: u64 = (consumption_per_km as u64) * (region.emission_factor as u64);
        let carbon_emissions: u64 = unit_emissions.wrapping_mul(distance_km as u64) / 1000;
        let carbon_cost: u64 = carbon_emissions.wrapping_mul(self.carbon_price_per_ton)
            / 1_000_000;
        Ok(
            TripCalculation {
                region: region_code,
                vehicle_type,
                distance_km,
                carbon_emissions_grams: carbon_emissions,
                carbon_cost_microcents: carbon_cost,
                timestamp: now,
            },
        )
    }
}

/// Upserting a code twice with the same four parameters is idempotent: the
/// first call leaves one entry for the code holding exactly those values,
/// and the second call changes nothing but that entry's timestamp.
pub proof fn lemma_upsert_idempotent(
    s0: CarbonOracle,
    s1: CarbonOracle,
    s2: CarbonOracle,
    code: String,
    avg_vehicle_consumption_per_km: u32,
    avg_electric_consumption_per_km: u32,
    avg_hybrid_consumption_per_km: u32,
    emission_factor: u32,
    t1: i64,
    t2: i64,
)
    requires
        s0.wf(),
        upsert_applied(
            s0,
            s1,
            code,
            avg_vehicle_consumption_per_km,
            avg_electric_consumption_per_km,
            avg_hybrid_consumption_per_km,
            emission_factor,
            t1,
        ),
        upsert_applied(
            s1,
            s2,
            code,
            avg_vehicle_consumption_per_km,
            avg_electric_consumption_per_km,
            avg_hybrid_consumption_per_km,
            emission_factor,
            t2,
        ),
    ensures
        s1.wf(),
        s2.wf(),
        exists|i: int|
            0 <= i < s1.spec_regions().len() && (#[trigger] s1.spec_regions()[i]).code@ == code@
                && s1.spec_regions()[i] == spec_region_updated(
                s1.spec_regions()[i],
                avg_vehicle_consumption_per_km,
                avg_electric_consumption_per_km,
                avg_hybrid_consumption_per_km,
                emission_factor,
                t1,
            ) && s2.spec_regions() == s1.spec_regions().update(
                i,
                (RegionData { last_update: t2, ..s1.spec_regions()[i] }),
            ),
{
    let i0: int = if has_region(s0.spec_regions(), code@) {
        choose|i: int| 0 <= i < s0.spec_regions().len() && s0.spec_regions()[i].code@ == code@
    } else {
        s0.spec_regions().len() as int
    };
    assert(0 <= i0 < s1.spec_regions().len());
    assert(s1.spec_regions()[i0].code@ == code@);
    assert(s1.spec_regions()[i0] == spec_region_updated(
        s1.spec_regions()[i0],
        avg_vehicle_consumption_per_km,
        avg_electric_consumption_per_km,
        avg_hybrid_consumption_per_km,
        emission_factor,
        t1,
    ));
    assert forall|x: int, y: int|
        0 <= x < y < s1.spec_regions().len() implies s1.spec_regions()[x].code@
        != s1.spec_regions()[y].code@ by {
        if y < s0.spec_regions().len() {
            assert(s0.spec_regions()[x].code@ != s0.spec_regions()[y].code@);
        } else {
            assert(s0.spec_regions()[x].code@ != code@);
        }
    }
    assert(has_region(s1.spec_regions(), code@));
    assert(s2.spec_regions() == s1.spec_regions().update(
        i0,
        spec_region_updated(
            s1.spec_regions()[i0],
            avg_vehicle_consumption_per_km,
            avg_electric_consumption_per_km,
            avg_hybrid_consumption_per_km,
            emission_factor,
            t2,
        ),
    ));
    assert(spec_region_updated(
        s1.spec_regions()[i0],
        avg_vehicle_consumption_per_km,
        avg_electric_consumption_per_km,
        avg_hybrid_consumption_per_km,
        emission_factor,
        t2,
    ) == (RegionData { last_update: t2, ..s1.spec_regions()[i0] }));
}

/// The index of the first stored region carrying `code`, if any; below it
/// no entry matches.
fn find_region_index(regions: &Vec<RegionData>, code: &String) -> (r: Option<usize>)
    ensures
        match r {
            Option::Some(i) => i < regions@.len() && regions@[i as int].code@ == code@ && forall|
                j: int,
            | 0 <= j < i ==> regions@[j].code@ != code@,
            Option::None => forall|j: int| 0 <= j < regions@.len() ==> regions@[j].code@ != code@,
        },
{
    let mut i: usize = 0;
    while i < regions.len()
        invariant
            i <= regions@.len(),
            forall|j: int| 0 <= j < i ==> regions@[j].code@ != code@,
        decreases regions@.len() - i,
    {
        if regions[i].code == *code {
            return Option::Some(i);
        }
        i = i + 1;
    }
    Option::None
}

} // verus!

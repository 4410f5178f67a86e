//! Locating the signatures: one sweep over the regions of the address space,
//! and the look at the user-profile signature that goes before each poll.

use crate::client::{resolved, MemoryClient};
use crate::data::{AddressInfo, MemoryData};
use crate::layout::{
    snapshot_of, yields, STATUS, STATUS_PLAYING, STATUS_RESULTS, STATUS_TOURNEY,
};
use crate::pattern::{first_match, located, match_pattern};
use crate::read::{readable, u32_at, MemoryError, MemoryReader, MemoryRegion};
use crate::signature::Signature;
use vstd::prelude::*;

verus! {

/// The address kept for a signature once a region was searched: the address
/// kept before, or, where none was, that of the first occurrence in the
/// region.
pub open spec fn sought(prior: usize, signature: Signature, data: Seq<u8>, base: usize) -> usize {
    if prior == 0 {
        located(data, signature.tokens(), base)
    } else {
        prior
    }
}

/// Whether a signature counts as located once a region was searched: it was
/// located before, or it occurs in the region.
pub open spec fn accounted(prior: usize, signature: Signature, data: Seq<u8>) -> bool {
    prior != 0 || first_match(data, signature.tokens()) is Some
}

/// Whether the user-profile signature is asked for: the status is not
/// located, or the status says that the client is a tournament client.
pub open spec fn companion_needed<R: MemoryReader>(m: &R, status_addr: usize) -> bool {
    status_addr == 0 || u32_at(m, resolved(m, status_addr, STATUS@)) == Ok::<u32, MemoryError>(
        STATUS_TOURNEY,
    )
}

/// The addresses after the region that holds `data` at `base` was searched.
pub open spec fn searched<R: MemoryReader>(
    m: &R,
    info: AddressInfo,
    data: Seq<u8>,
    base: usize,
) -> AddressInfo {
    let status = sought(info.status, Signature::Status, data, base);
    AddressInfo {
        status,
        settings_class: sought(info.settings_class, Signature::SettingsClass, data, base),
        base: sought(info.base, Signature::Base, data, base),
        menu_mods: sought(info.menu_mods, Signature::MenuMods, data, base),
        play_time: sought(info.play_time, Signature::PlayTime, data, base),
        chat_checker: sought(info.chat_checker, Signature::ChatChecker, data, base),
        skin_data: sought(info.skin_data, Signature::SkinData, data, base),
        rulesets: sought(info.rulesets, Signature::Rulesets, data, base),
        chat_area: sought(info.chat_area, Signature::ChatArea, data, base),
        user_info: if companion_needed(m, status) {
            sought(info.user_info, Signature::UserInfo, data, base)
        } else {
            info.user_info
        },
    }
}

/// Whether every signature asked for counts as located once the region that
/// holds `data` at `base` was searched.
pub open spec fn complete<R: MemoryReader>(
    m: &R,
    info: AddressInfo,
    data: Seq<u8>,
    base: usize,
) -> bool {
    &&& accounted(info.status, Signature::Status, data)
    &&& accounted(info.settings_class, Signature::SettingsClass, data)
    &&& accounted(info.base, Signature::Base, data)
    &&& accounted(info.menu_mods, Signature::MenuMods, data)
    &&& accounted(info.play_time, Signature::PlayTime, data)
    &&& accounted(info.chat_checker, Signature::ChatChecker, data)
    &&& accounted(info.skin_data, Signature::SkinData, data)
    &&& accounted(info.rulesets, Signature::Rulesets, data)
    &&& accounted(info.chat_area, Signature::ChatArea, data)
    &&& companion_needed(m, sought(info.status, Signature::Status, data, base)) ==> accounted(
        info.user_info,
        Signature::UserInfo,
        data,
    )
}

/// Whether the region lies within the address space.
pub open spec fn fits(page: MemoryRegion) -> bool {
    page.base + page.size <= usize::MAX + 1
}

/// The regions that a walk over the address space from `addr` upward comes
/// to, in their order: the region that a query at `addr` reports, then those
/// from its end on. The walk is over where a query fails, where a region does
/// not lie within the address space, and where the end of a region is not a
/// higher address.
pub open spec fn regions_from<R: MemoryReader>(m: &R, addr: usize) -> Seq<MemoryRegion>
    decreases usize::MAX - addr,
{
    match m.region_at(addr) {
        None => Seq::empty(),
        Some(page) => if !fits(page) {
            Seq::empty()
        } else if addr < page.base + page.size <= usize::MAX {
            seq![page] + regions_from(m, (page.base + page.size) as usize)
        } else {
            seq![page]
        },
    }
}

/// What a region holds: its bytes, read at once, or nothing for a region
/// that may not be read, of which no read is tried.
pub open spec fn contents_of<R: MemoryReader>(m: &R, page: MemoryRegion) -> Result<
    Option<Seq<u8>>,
    MemoryError,
> {
    if !readable(page.protect) {
        Ok(None)
    } else {
        match m.bytes_at(page.base, page.size) {
            Some(data) => Ok(Some(data)),
            None => Err(MemoryError::ReadFailed(page.base)),
        }
    }
}

/// What the sweep has of a region to search: its bytes, or nothing for a
/// region that may not be read or whose read is refused.
pub open spec fn searchable<R: MemoryReader>(m: &R, page: MemoryRegion) -> Option<Seq<u8>> {
    match contents_of(m, page) {
        Ok(contents) => contents,
        Err(_) => None,
    }
}

/// The outcome of the sweep from `addr` on, and the addresses it leaves.
///
/// The sweep walks the regions from `addr` upward. Each region that may be
/// read is read whole and searched; a region whose read is refused is passed
/// over like one that may not be read. The sweep succeeds once every
/// signature asked for counts as located, and fails where the walk is over
/// before.
pub open spec fn swept<R: MemoryReader>(m: &R, info: AddressInfo, addr: usize) -> (
    Result<(), MemoryError>,
    AddressInfo,
)
    decreases usize::MAX - addr,
{
    match m.region_at(addr) {
        None => (Err(MemoryError::PatternsNotFound), info),
        Some(page) => if !fits(page) {
            (Err(MemoryError::PatternsNotFound), info)
        } else {
            let contents = searchable(m, page);
            let after = match contents {
                Some(data) => searched(m, info, data, page.base),
                None => info,
            };
            if contents is Some && complete(m, info, contents->0, page.base) {
                (Ok(()), after)
            } else if addr < page.base + page.size <= usize::MAX {
                swept(m, after, (page.base + page.size) as usize)
            } else {
                (Err(MemoryError::PatternsNotFound), after)
            }
        },
    }
}

/// Whether the regions that the sweep from `addr` on visits are in order:
/// every readable region lies above address 0, and what is read of it has as
/// many bytes as the region.
pub open spec fn clear_from<R: MemoryReader>(m: &R, addr: usize) -> bool
    decreases usize::MAX - addr,
{
    match m.region_at(addr) {
        None => true,
        Some(page) => !fits(page) || {
            &&& readable(page.protect) ==> page.base > 0
            &&& searchable(m, page) matches Some(data) ==> data.len() == page.size
            &&& addr < page.base + page.size <= usize::MAX ==> clear_from(
                m,
                (page.base + page.size) as usize,
            )
        },
    }
}

/// Whether a walk from `addr` upward comes to `page`.
pub open spec fn visits<R: MemoryReader>(m: &R, addr: usize, page: MemoryRegion) -> bool {
    regions_from(m, addr).contains(page)
}

/// A walk comes to a region where the region is the first that it comes to,
/// or one that the walk from the end of the first comes to.
pub proof fn lemma_visits<R: MemoryReader>(m: &R, addr: usize, page: MemoryRegion)
    ensures
        visits(m, addr, page) <==> match m.region_at(addr) {
            None => false,
            Some(first) => fits(first) && (first == page || (addr < first.base + first.size
                <= usize::MAX && visits(m, (first.base + first.size) as usize, page))),
        },
{
    match m.region_at(addr) {
        None => {},
        Some(first) => {
            if fits(first) {
                let end = first.base + first.size;
                if addr < end <= usize::MAX {
                    let rest = regions_from(m, end as usize);
                    let all = seq![first] + rest;
                    if first == page {
                        assert(all[0] == page);
                    }
                    if rest.contains(page) {
                        let i = choose|i: int| 0 <= i < rest.len() && rest[i] == page;
                        assert(all[i + 1] == page);
                    }
                    if all.contains(page) {
                        let i = choose|i: int| 0 <= i < all.len() && all[i] == page;
                        if i > 0 {
                            assert(rest[i - 1] == page);
                        }
                    }
                } else {
                    let all = seq![first];
                    if first == page {
                        assert(all[0] == page);
                    }
                }
            }
        },
    }
}

/// The address of the first occurrence of the signature that a sweep from
/// `addr` on comes to; 0 where it comes to none.
pub open spec fn first_hit<R: MemoryReader>(m: &R, signature: Signature, addr: usize) -> usize
    decreases usize::MAX - addr,
{
    match m.region_at(addr) {
        None => 0,
        Some(page) => {
            let here = match searchable(m, page) {
                Some(data) => located(data, signature.tokens(), page.base),
                None => 0,
            };
            if !fits(page) {
                0
            } else if here != 0 {
                here
            } else if addr < page.base + page.size <= usize::MAX {
                first_hit(m, signature, (page.base + page.size) as usize)
            } else {
                0
            }
        },
    }
}

/// Whether the signature is one that every client must hold. The
/// user-profile signature is not: it is asked for only of a tournament client.
pub open spec fn required(signature: Signature) -> bool {
    signature != Signature::UserInfo
}

/// An occurrence in a region that lies above address 0 within the address
/// space has an address other than 0.
proof fn lemma_located_above_null(data: Seq<u8>, signature: Signature, base: usize)
    requires
        base > 0,
        base + data.len() <= usize::MAX + 1,
        first_match(data, signature.tokens()) is Some,
    ensures
        located(data, signature.tokens(), base) != 0,
        located(data, signature.tokens(), base) == base + first_match(
            data,
            signature.tokens(),
        )->0,
{
    crate::pattern::lemma_first_match_is_least(data, signature.tokens());
}

/// An address once located is kept by every later search.
pub proof fn lemma_located_stays<R: MemoryReader>(
    m: &R,
    info: AddressInfo,
    data: Seq<u8>,
    base: usize,
    signature: Signature,
)
    requires
        info.of(signature) != 0,
    ensures
        searched(m, info, data, base).of(signature) == info.of(signature),
{
}

/// What a sweep over regions in order leaves for a required signature: the
/// address it had, or else the first occurrence that the sweep comes to; and
/// where the sweep succeeds it has located every required signature.
pub proof fn lemma_sweep_values<R: MemoryReader>(
    m: &R,
    info: AddressInfo,
    addr: usize,
    signature: Signature,
)
    requires
        clear_from(m, addr),
        required(signature),
    ensures
        swept(m, info, addr).1.of(signature) == if info.of(signature) != 0 {
            info.of(signature)
        } else {
            first_hit(m, signature, addr)
        },
        swept(m, info, addr).0 is Ok ==> swept(m, info, addr).1.of(signature) != 0,
    decreases usize::MAX - addr,
{
    match m.region_at(addr) {
        None => {},
        Some(page) => {
            if fits(page) {
                let end = page.base + page.size;
                if searchable(m, page) is Some {
                    let data = searchable(m, page)->0;
                    let after = searched(m, info, data, page.base);
                    assert(after.of(signature) == sought(
                        info.of(signature),
                        signature,
                        data,
                        page.base,
                    ));
                    if first_match(data, signature.tokens()) is Some {
                        lemma_located_above_null(data, signature, page.base);
                    }
                    if complete(m, info, data, page.base) {
                        assert(accounted(info.of(signature), signature, data));
                    } else if addr < end <= usize::MAX {
                        lemma_sweep_values(m, after, end as usize, signature);
                    }
                } else if addr < end <= usize::MAX {
                    lemma_sweep_values(m, info, end as usize, signature);
                }
            }
        },
    }
}

/// The addresses after a look at whether the user-profile signature is asked
/// for: those that a sweep leaves where it is asked for and not located, and
/// else the addresses as they are.
pub open spec fn revalidated<R: MemoryReader>(m: &R, info: AddressInfo) -> AddressInfo {
    if info.user_info == 0 && companion_needed(m, info.status) {
        swept(m, info, 0).1
    } else {
        info
    }
}

/// A sweep fails for want of a signature and for nothing else.
pub proof fn lemma_sweep_fails_for_want_only<R: MemoryReader>(
    m: &R,
    info: AddressInfo,
    addr: usize,
)
    ensures
        swept(m, info, addr).0 is Err ==> swept(m, info, addr).0 == Err::<(), MemoryError>(
            MemoryError::PatternsNotFound,
        ),
    decreases usize::MAX - addr,
{
    match m.region_at(addr) {
        None => {},
        Some(page) => {
            let end = page.base + page.size;
            if fits(page) && addr < end <= usize::MAX {
                match searchable(m, page) {
                    Some(data) => {
                        lemma_sweep_fails_for_want_only(
                            m,
                            searched(m, info, data, page.base),
                            end as usize,
                        );
                    },
                    None => {
                        lemma_sweep_fails_for_want_only(m, info, end as usize);
                    },
                }
            }
        },
    }
}

/// Whether a signature that is asked for is still not located.
spec fn pending<R: MemoryReader>(m: &R, info: AddressInfo) -> bool {
    ||| info.status == 0
    ||| info.settings_class == 0
    ||| info.base == 0
    ||| info.menu_mods == 0
    ||| info.play_time == 0
    ||| info.chat_checker == 0
    ||| info.skin_data == 0
    ||| info.rulesets == 0
    ||| info.chat_area == 0
    ||| companion_needed(m, info.status) && info.user_info == 0
}

/// Whether the signature is located or the sweep from `addr` on comes to it.
spec fn in_reach<R: MemoryReader>(
    m: &R,
    info: AddressInfo,
    signature: Signature,
    addr: usize,
) -> bool {
    info.of(signature) != 0 || first_hit(m, signature, addr) != 0
}

/// The address that the status has once the sweep from `addr` on is through.
pub open spec fn status_in_the_end<R: MemoryReader>(m: &R, info: AddressInfo, addr: usize) -> usize {
    if info.status != 0 {
        info.status
    } else {
        first_hit(m, Signature::Status, addr)
    }
}

/// A sweep over regions in order succeeds where signatures are pending and
/// each of them is in reach; the user-profile signature need not be where
/// the client is no tournament client.
proof fn lemma_sweep_succeeds<R: MemoryReader>(m: &R, info: AddressInfo, addr: usize)
    requires
        clear_from(m, addr),
        pending(m, info),
        in_reach(m, info, Signature::Status, addr),
        in_reach(m, info, Signature::SettingsClass, addr),
        in_reach(m, info, Signature::Base, addr),
        in_reach(m, info, Signature::MenuMods, addr),
        in_reach(m, info, Signature::PlayTime, addr),
        in_reach(m, info, Signature::ChatChecker, addr),
        in_reach(m, info, Signature::SkinData, addr),
        in_reach(m, info, Signature::Rulesets, addr),
        in_reach(m, info, Signature::ChatArea, addr),
        in_reach(m, info, Signature::UserInfo, addr) || !companion_needed(
            m,
            status_in_the_end(m, info, addr),
        ),
    ensures
        swept(m, info, addr).0 is Ok,
    decreases usize::MAX - addr,
{
    match m.region_at(addr) {
        None => {},
        Some(page) => {
            if fits(page) {
                let end = page.base + page.size;
                if searchable(m, page) is Some {
                    let data = searchable(m, page)->0;
                    let after = searched(m, info, data, page.base);
                    lemma_step(m, info, addr, Signature::Status);
                    lemma_step(m, info, addr, Signature::SettingsClass);
                    lemma_step(m, info, addr, Signature::Base);
                    lemma_step(m, info, addr, Signature::MenuMods);
                    lemma_step(m, info, addr, Signature::PlayTime);
                    lemma_step(m, info, addr, Signature::ChatChecker);
                    lemma_step(m, info, addr, Signature::SkinData);
                    lemma_step(m, info, addr, Signature::Rulesets);
                    lemma_step(m, info, addr, Signature::ChatArea);
                    lemma_step(m, info, addr, Signature::UserInfo);
                    if !complete(m, info, data, page.base) {
                        if addr < end <= usize::MAX {
                            lemma_sweep_succeeds(m, after, end as usize);
                        }
                    }
                } else if addr < end <= usize::MAX {
                    lemma_sweep_succeeds(m, info, end as usize);
                }
            }
        },
    }
}

/// One readable region of a sweep, seen from one signature: what the search
/// of the region leaves is the address kept before, or else the occurrence in
/// the region; and where it leaves none, the signature occurs in the region
/// not at all, and is in reach after the region if it was before.
proof fn lemma_step<R: MemoryReader>(m: &R, info: AddressInfo, addr: usize, signature: Signature)
    requires
        clear_from(m, addr),
        m.region_at(addr) is Some,
        fits(m.region_at(addr)->0),
        searchable(m, m.region_at(addr)->0) is Some,
    ensures
        ({
            let page = m.region_at(addr)->0;
            let data = searchable(m, page)->0;
            let end = page.base + page.size;
            let kept = sought(info.of(signature), signature, data, page.base);
            &&& kept != 0 <==> accounted(info.of(signature), signature, data)
            &&& kept == 0 ==> first_hit(m, signature, addr) == if addr < end <= usize::MAX {
                first_hit(m, signature, end as usize)
            } else {
                0
            }
        }),
{
    let page = m.region_at(addr)->0;
    let data = searchable(m, page)->0;
    if first_match(data, signature.tokens()) is Some {
        lemma_located_above_null(data, signature, page.base);
    }
}

/// The first occurrence of the user-profile signature that a sweep from
/// `addr` on comes to before the region in which the status signature
/// occurs; 0 where it comes to none.
pub open spec fn first_hit_before_status<R: MemoryReader>(m: &R, addr: usize) -> usize
    decreases usize::MAX - addr,
{
    match m.region_at(addr) {
        None => 0,
        Some(page) => {
            let status_here = match searchable(m, page) {
                Some(data) => located(data, Signature::Status.tokens(), page.base),
                None => 0,
            };
            let here = match searchable(m, page) {
                Some(data) => located(data, Signature::UserInfo.tokens(), page.base),
                None => 0,
            };
            if !fits(page) || status_here != 0 {
                0
            } else if here != 0 {
                here
            } else if addr < page.base + page.size <= usize::MAX {
                first_hit_before_status(m, (page.base + page.size) as usize)
            } else {
                0
            }
        },
    }
}

/// What a sweep leaves for the user-profile signature, over regions in
/// order: the address it had; or else, of a tournament client or one whose
/// status is never located, the first occurrence that the sweep comes to; or
/// else the first occurrence before the region that holds the status
/// signature, since the signature is not sought once the status says that the
/// client is no tournament client. Where the sweep of a tournament client
/// succeeds, it has located the signature.
pub proof fn lemma_sweep_user_info<R: MemoryReader>(m: &R, info: AddressInfo, addr: usize)
    requires
        clear_from(m, addr),
    ensures
        swept(m, info, addr).1.user_info == if info.user_info != 0 {
            info.user_info
        } else if companion_needed(m, status_in_the_end(m, info, addr)) {
            first_hit(m, Signature::UserInfo, addr)
        } else if info.status != 0 {
            0
        } else {
            first_hit_before_status(m, addr)
        },
        swept(m, info, addr).0 is Ok && companion_needed(m, status_in_the_end(m, info, addr))
            ==> swept(m, info, addr).1.user_info != 0,
    decreases usize::MAX - addr,
{
    match m.region_at(addr) {
        None => {},
        Some(page) => {
            if fits(page) {
                let end = page.base + page.size;
                match searchable(m, page) {
                    Some(data) => {
                        let after = searched(m, info, data, page.base);
                        lemma_step(m, info, addr, Signature::Status);
                        lemma_step(m, info, addr, Signature::UserInfo);
                        if first_match(data, Signature::Status.tokens()) is Some {
                            lemma_located_above_null(data, Signature::Status, page.base);
                        }
                        if first_match(data, Signature::UserInfo.tokens()) is Some {
                            lemma_located_above_null(data, Signature::UserInfo, page.base);
                        }
                        if !complete(m, info, data, page.base) && addr < end <= usize::MAX {
                            lemma_sweep_user_info(m, after, end as usize);
                        }
                    },
                    None => {
                        if addr < end <= usize::MAX {
                            lemma_sweep_user_info(m, info, end as usize);
                        }
                    },
                }
            }
        },
    }
}

/// A sweep over an address space that holds every signature succeeds, in
/// whatever order the regions hold them: on a session that has located
/// nothing, a sweep over regions in order that comes to each required
/// signature, and to the user-profile signature too where the client is a
/// tournament client, ends well, and each required signature is then located
/// at its first occurrence. The user-profile signature is located at its
/// first occurrence for a tournament client, and else at its first occurrence
/// before the region that holds the status signature, if there is one.
pub proof fn lemma_bootstrap_succeeds<R: MemoryReader>(m: &R)
    requires
        clear_from(m, 0),
        forall|s: Signature| required(s) ==> first_hit(m, s, 0) != 0,
        first_hit(m, Signature::UserInfo, 0) != 0 || !companion_needed(
            m,
            first_hit(m, Signature::Status, 0),
        ),
    ensures
        swept(m, AddressInfo::unresolved(), 0).0 is Ok,
        forall|s: Signature|
            required(s) ==> #[trigger] swept(m, AddressInfo::unresolved(), 0).1.of(s) == first_hit(
                m,
                s,
                0,
            ),
        swept(m, AddressInfo::unresolved(), 0).1.user_info == if companion_needed(
            m,
            first_hit(m, Signature::Status, 0),
        ) {
            first_hit(m, Signature::UserInfo, 0)
        } else {
            first_hit_before_status(m, 0)
        },
{
    let info = AddressInfo::unresolved();
    lemma_sweep_user_info(m, info, 0);
    assert(required(Signature::Status));
    assert(required(Signature::SettingsClass));
    assert(required(Signature::Base));
    assert(required(Signature::MenuMods));
    assert(required(Signature::PlayTime));
    assert(required(Signature::ChatChecker));
    assert(required(Signature::SkinData));
    assert(required(Signature::Rulesets));
    assert(required(Signature::ChatArea));
    lemma_sweep_succeeds(m, info, 0);
    assert forall|s: Signature| required(s) implies #[trigger] swept(m, info, 0).1.of(s)
        == first_hit(m, s, 0) by {
        lemma_sweep_values(m, info, 0, s);
    }
}

/// A sweep over an address space that lacks a required signature fails for
/// want of it, and still locates the others: on a session that has located
/// nothing, a sweep over regions in order ends with `PatternsNotFound`, the
/// missing signature is left at 0, and every other required signature is
/// left at its first occurrence.
pub proof fn lemma_bootstrap_fails<R: MemoryReader>(m: &R, missing: Signature)
    requires
        clear_from(m, 0),
        required(missing),
        first_hit(m, missing, 0) == 0,
    ensures
        swept(m, AddressInfo::unresolved(), 0).0 == Err::<(), MemoryError>(
            MemoryError::PatternsNotFound,
        ),
        forall|s: Signature|
            required(s) ==> #[trigger] swept(m, AddressInfo::unresolved(), 0).1.of(s) == first_hit(
                m,
                s,
                0,
            ),
{
    let info = AddressInfo::unresolved();
    lemma_sweep_values(m, info, 0, missing);
    lemma_sweep_fails_for_want_only(m, info, 0);
    assert forall|s: Signature| required(s) implies #[trigger] swept(m, info, 0).1.of(s)
        == first_hit(m, s, 0) by {
        lemma_sweep_values(m, info, 0, s);
    }
}

/// A sweep for a tournament client, or for one whose status signature is
/// nowhere, fails for want of the user-profile signature where no region
/// holds it, and still leaves every required signature at its first
/// occurrence.
pub proof fn lemma_bootstrap_fails_for_user_info<R: MemoryReader>(m: &R)
    requires
        clear_from(m, 0),
        companion_needed(m, first_hit(m, Signature::Status, 0)),
        first_hit(m, Signature::UserInfo, 0) == 0,
    ensures
        swept(m, AddressInfo::unresolved(), 0).0 == Err::<(), MemoryError>(
            MemoryError::PatternsNotFound,
        ),
        swept(m, AddressInfo::unresolved(), 0).1.user_info == 0,
        forall|s: Signature|
            required(s) ==> #[trigger] swept(m, AddressInfo::unresolved(), 0).1.of(s) == first_hit(
                m,
                s,
                0,
            ),
{
    let info = AddressInfo::unresolved();
    lemma_sweep_user_info(m, info, 0);
    lemma_sweep_fails_for_want_only(m, info, 0);
    assert forall|s: Signature| required(s) implies #[trigger] swept(m, info, 0).1.of(s)
        == first_hit(m, s, 0) by {
        lemma_sweep_values(m, info, 0, s);
    }
}

/// The first occurrence that a sweep comes to is an occurrence: the sweep
/// visits a readable region in which the signature matches at that address.
pub proof fn lemma_first_hit_is_an_occurrence<R: MemoryReader>(
    m: &R,
    signature: Signature,
    addr: usize,
)
    requires
        clear_from(m, addr),
        first_hit(m, signature, addr) != 0,
    ensures
        exists|page: MemoryRegion|
            {
                &&& #[trigger] visits(m, addr, page)
                &&& searchable(m, page) is Some
                &&& crate::pattern::matches_at(
                    searchable(m, page)->0,
                    signature.tokens(),
                    first_hit(m, signature, addr) - page.base,
                )
            },
    decreases usize::MAX - addr,
{
    let page = m.region_at(addr)->0;
    let data = searchable(m, page);
    let end = page.base + page.size;
    let here = match data {
        Some(bytes) => located(bytes, signature.tokens(), page.base),
        None => 0,
    };
    if here != 0 {
        lemma_located_above_null(data->0, signature, page.base);
        crate::pattern::lemma_first_match_is_least(data->0, signature.tokens());
        lemma_visits(m, addr, page);
    } else {
        lemma_first_hit_is_an_occurrence(m, signature, end as usize);
        let found = choose|found: MemoryRegion|
            {
                &&& #[trigger] visits(m, end as usize, found)
                &&& searchable(m, found) is Some
                &&& crate::pattern::matches_at(
                    searchable(m, found)->0,
                    signature.tokens(),
                    first_hit(m, signature, end as usize) - found.base,
                )
            };
        lemma_visits(m, addr, found);
    }
}

/// Seeks one signature in a region, unless it is located already, and keeps
/// count of the signatures asked for and of those located.
fn search_for(
    prior: usize,
    signature: Signature,
    data: &[u8],
    base: usize,
    valid: &mut u8,
    total: &mut u8,
) -> (r: usize)
    requires
        *old(valid) < u8::MAX,
        *old(total) < u8::MAX,
        base + data@.len() <= usize::MAX + 1,
    ensures
        r == sought(prior, signature, data@, base),
        *final(total) == *old(total) + 1,
        *final(valid) == *old(valid) + (if accounted(prior, signature, data@) {
            1int
        } else {
            0int
        }),
{
    *total += 1;
    if prior == 0 {
        let pattern = signature.pattern();
        match_pattern(data, pattern.as_slice(), valid, base)
    } else {
        *valid += 1;
        prior
    }
}

impl<R: MemoryReader> MemoryClient<R> {
    /// Whether the user-profile signature is asked for: the status is not
    /// located, or it reads as that of a tournament client.
    fn asks_for_companion(&self) -> (r: bool)
        ensures
            r == companion_needed(&self.reader, self.addresses.status),
    {
        self.addresses.status == 0 || match self.reader.read_u32(
            self.resolve_ptrs(self.addresses.status, &STATUS),
        ) {
            Ok(status) => status == STATUS_TOURNEY,
            Err(_) => false,
        }
    }

    /// Searches the region that holds `data` at `base_address` for every
    /// signature not located yet. Returns whether every signature asked for
    /// is located now.
    pub fn search(&mut self, data: &[u8], base_address: usize) -> (r: bool)
        requires
            base_address + data@.len() <= usize::MAX + 1,
        ensures
            final(self).addresses == searched(
                &old(self).reader,
                old(self).addresses,
                data@,
                base_address,
            ),
            r == complete(&old(self).reader, old(self).addresses, data@, base_address),
            final(self).reader == old(self).reader,
            final(self).is_open == old(self).is_open,
    {
        let mut valid: u8 = 0;
        let mut total: u8 = 0;
        self.addresses.status =
        search_for(
            self.addresses.status,
            Signature::Status,
            data,
            base_address,
            &mut valid,
            &mut total,
        );
        self.addresses.settings_class =
        search_for(
            self.addresses.settings_class,
            Signature::SettingsClass,
            data,
            base_address,
            &mut valid,
            &mut total,
        );
        self.addresses.base =
        search_for(self.addresses.base, Signature::Base, data, base_address, &mut valid, &mut total);
        self.addresses.menu_mods =
        search_for(
            self.addresses.menu_mods,
            Signature::MenuMods,
            data,
            base_address,
            &mut valid,
            &mut total,
        );
        self.addresses.play_time =
        search_for(
            self.addresses.play_time,
            Signature::PlayTime,
            data,
            base_address,
            &mut valid,
            &mut total,
        );
        self.addresses.chat_checker =
        search_for(
            self.addresses.chat_checker,
            Signature::ChatChecker,
            data,
            base_address,
            &mut valid,
            &mut total,
        );
        self.addresses.skin_data =
        search_for(
            self.addresses.skin_data,
            Signature::SkinData,
            data,
            base_address,
            &mut valid,
            &mut total,
        );
        self.addresses.rulesets =
        search_for(
            self.addresses.rulesets,
            Signature::Rulesets,
            data,
            base_address,
            &mut valid,
            &mut total,
        );
        self.addresses.chat_area =
        search_for(
            self.addresses.chat_area,
            Signature::ChatArea,
            data,
            base_address,
            &mut valid,
            &mut total,
        );
        if self.asks_for_companion() {
            self.addresses.user_info =
            search_for(
                self.addresses.user_info,
                Signature::UserInfo,
                data,
                base_address,
                &mut valid,
                &mut total,
            );
        }
        valid == total
    }

    /// Lists the regions of the address space, from address 0 upward.
    pub fn regions(&self) -> (r: Vec<MemoryRegion>)
        ensures
            r@ == regions_from(&self.reader, 0),
    {
        let mut found: Vec<MemoryRegion> = Vec::new();
        let mut addr: usize = 0;
        loop
            invariant
                regions_from(&self.reader, 0) == found@ + regions_from(&self.reader, addr),
            decreases usize::MAX - addr,
        {
            let page = match self.reader.query_page(addr) {
                Some(page) => page,
                None => {
                    return found;
                },
            };
            if page.size > 0 && page.base > usize::MAX - (page.size - 1) {
                return found;
            }
            let ghost before = found@;
            found.push(page);
            if page.base > usize::MAX - page.size || page.base + page.size <= addr {
                return found;
            }
            proof {
                let rest = regions_from(&self.reader, (page.base + page.size) as usize);
                assert(before + (seq![page] + rest) =~= before.push(page) + rest);
            }
            addr = page.base + page.size;
        }
    }

    /// Reads what a region holds. A region that may not be read is passed
    /// over: it yields `None`, and no read is tried.
    pub fn contents(&self, page: &MemoryRegion) -> (r: Result<Option<Vec<u8>>, MemoryError>)
        ensures
            match contents_of(&self.reader, *page) {
                Ok(Some(data)) => r matches Ok(Some(bytes)) && bytes@ == data && bytes@.len()
                    == page.size,
                Ok(None) => r matches Ok(None),
                Err(e) => r matches Err(x) && x == e,
            },
    {
        if !page.is_readable() {
            return Ok(None);
        }
        Ok(Some(self.reader.read_raw(page.base, page.size)?))
    }

    /// Sweeps the address space from address 0 upward for the signatures
    /// not located yet.
    fn sweep(&mut self) -> (r: Result<(), MemoryError>)
        ensures
            final(self).reader == old(self).reader,
            final(self).is_open == old(self).is_open,
            (r, final(self).addresses) == swept(&old(self).reader, old(self).addresses, 0),
    {
        let mut addr: usize = 0;
        loop
            invariant
                self.reader == old(self).reader,
                self.is_open == old(self).is_open,
                swept(&old(self).reader, old(self).addresses, 0) == swept(
                    &self.reader,
                    self.addresses,
                    addr,
                ),
            decreases usize::MAX - addr,
        {
            let page = match self.reader.query_page(addr) {
                Some(page) => page,
                None => {
                    return Err(MemoryError::PatternsNotFound);
                },
            };
            if page.size > 0 && page.base > usize::MAX - (page.size - 1) {
                return Err(MemoryError::PatternsNotFound);
            }
            // a region whose read is refused is passed over
            if let Ok(Some(data)) = self.contents(&page) {
                if self.search(data.as_slice(), page.base) {
                    return Ok(());
                }
            }
            if page.base > usize::MAX - page.size || page.base + page.size <= addr {
                return Err(MemoryError::PatternsNotFound);
            }
            addr = page.base + page.size;
        }
    }

    /// Locates the signatures in one sweep over the address space, from
    /// address 0 upward.
    ///
    /// Fails with `AlreadyClosed` on a closed session, and with
    /// `PatternsNotFound` where the sweep ends with a signature not located.
    /// The addresses located until then are kept. A region that cannot be
    /// read does not end the sweep.
    pub fn init(&mut self) -> (r: Result<(), MemoryError>)
        ensures
            final(self).reader == old(self).reader,
            final(self).is_open == old(self).is_open,
            !old(self).is_open ==> r == Err::<(), MemoryError>(MemoryError::AlreadyClosed)
                && final(self).addresses == old(self).addresses,
            old(self).is_open ==> (r, final(self).addresses) == swept(
                &old(self).reader,
                old(self).addresses,
                0,
            ),
            r matches Err(e) ==> e == MemoryError::AlreadyClosed || e
                == MemoryError::PatternsNotFound,
    {
        if !self.is_open {
            return Err(MemoryError::AlreadyClosed);
        }
        proof {
            lemma_sweep_fails_for_want_only(&self.reader, self.addresses, 0);
        }
        self.sweep()
    }

    /// Looks again at whether the user-profile signature is asked for, which
    /// changes as the client enters or leaves a tournament, and sweeps the
    /// address space for it where it is asked for and not located.
    pub fn revalidate(&mut self) -> (r: Result<(), MemoryError>)
        ensures
            final(self).reader == old(self).reader,
            final(self).is_open == old(self).is_open,
            old(self).addresses.user_info != 0 || !companion_needed(
                &old(self).reader,
                old(self).addresses.status,
            ) ==> r is Ok && final(self).addresses == old(self).addresses,
            old(self).addresses.user_info == 0 && companion_needed(
                &old(self).reader,
                old(self).addresses.status,
            ) ==> (r, final(self).addresses) == swept(
                &old(self).reader,
                old(self).addresses,
                0,
            ),
            final(self).addresses == revalidated(&old(self).reader, old(self).addresses),
    {
        if self.addresses.user_info != 0 || !self.asks_for_companion() {
            return Ok(());
        }
        self.sweep()
    }

    /// Takes one snapshot of the client's state, after looking again at the
    /// user-profile signature. That the signature is asked for and not found
    /// does not fail the snapshot, which reads nothing through it.
    pub fn poll(&mut self) -> (r: Result<MemoryData, MemoryError>)
        ensures
            final(self).reader == old(self).reader,
            final(self).is_open == old(self).is_open,
            final(self).addresses == revalidated(&old(self).reader, old(self).addresses),
            yields(r, snapshot_of(&old(self).reader, final(self).addresses)),
            r matches Ok(data) ==> {
                &&& data.gameplay is Some <==> data.status == STATUS_PLAYING
                &&& data.results is Some <==> data.status == STATUS_RESULTS
                &&& data.tournament is Some <==> data.status == STATUS_TOURNEY
            },
    {
        let _ = self.revalidate();
        self.get_memory_data()
    }
}

} // verus!

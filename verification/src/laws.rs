use vstd::prelude::*;

use crate::admin_chain::{walk_step, AdminWalk, AdminWalkAction, AdminWalkEvent};
use crate::assignment::{assignment_validation, Assignment};
use crate::chain::{conversion_error, lookup_from, typed_content, ChainEntry, Lookup};
use crate::constants::{ADMINISTRATOR_ROLE, ASSIGNMENT_TYPE, ROLE_TYPE};
use crate::definition::{EntryValidationData, SourceChain, ValidationData};
use crate::page::{page_validation, Page};
use crate::role::{role_validation, Role};
use crate::text::occurs_in;
use crate::validation::{admin_status, AdminContext};
use crate::wiki::can_edit;

verus! {

/// Anyone may create the administrator role.
pub proof fn law_admin_role_always_creatable(entry: Role, validation_data: ValidationData, ctx: AdminContext)
    requires
        entry.name@ == ADMINISTRATOR_ROLE@,
    ensures
        role_validation(EntryValidationData::Create { entry, validation_data }, ctx) == Ok::<
            (),
            Seq<char>,
        >(()),
{
}

/// Another role is created only when some signer of the entry is an
/// administrator.
pub proof fn law_roles_created_by_admins(entry: Role, validation_data: ValidationData, ctx: AdminContext)
    requires
        entry.name@ != ADMINISTRATOR_ROLE@,
        role_validation(EntryValidationData::Create { entry, validation_data }, ctx) is Ok,
    ensures
        exists|i: int|
            0 <= i < validation_data.sources@.len() && admin_status(
                #[trigger] validation_data.sources@[i]@,
                ctx,
                validation_data.source_chain_entries->0.assignments@,
            ) == Ok::<bool, Seq<char>>(true),
{
}

/// A role's name never changes: an update of a role is accepted exactly
/// when it keeps the name.
pub proof fn law_role_name_is_fixed(
    new_entry: Role,
    old_entry: Role,
    validation_data: ValidationData,
    ctx: AdminContext,
)
    ensures
        role_validation(
            EntryValidationData::Modify { new_entry, old_entry, validation_data },
            ctx,
        ) is Ok <==> new_entry.name@ == old_entry.name@,
{
}

/// Roles are never deleted.
pub proof fn law_roles_never_deleted(old_entry: Role, validation_data: ValidationData, ctx: AdminContext)
    ensures
        role_validation(EntryValidationData::Delete { old_entry, validation_data }, ctx) is Err,
{
}

/// An initial administrator is an administrator, whatever the chain holds.
pub proof fn law_initial_admins_are_admins(
    agent: Seq<char>,
    admins: Vec<String>,
    admin_role_address: Result<String, String>,
    chain: Seq<ChainEntry<Assignment>>,
)
    requires
        admins.deep_view().contains(agent),
    ensures
        admin_status(
            agent,
            AdminContext { initial_admins: Ok(admins), admin_role_address },
            chain,
        ) == Ok::<bool, Seq<char>>(true),
{
}

/// An accepted role assignment is signed by its issuing admin, who is an
/// administrator; the assigned role's entry is on the author's chain; and an
/// assignment of the administrator role carries no metadata.
pub proof fn law_accepted_assignments(
    entry: Assignment,
    validation_data: ValidationData,
    ctx: AdminContext,
)
    requires
        assignment_validation(EntryValidationData::Create { entry, validation_data }, ctx) is Ok,
    ensures
        validation_data.sources.deep_view().contains(entry.admin_address@),
        ctx.admin_role_address is Ok,
        entry.role_address@ == ctx.admin_role_address->Ok_0@ ==> entry.metadata is None,
        lookup_from(
            validation_data.source_chain_entries->0.roles@,
            0,
            ROLE_TYPE@,
            entry.role_address@,
        ) is Found,
        admin_status(
            entry.admin_address@,
            ctx,
            validation_data.source_chain_entries->0.assignments@,
        ) == Ok::<bool, Seq<char>>(true),
{
}

/// Role assignments are never modified or deleted.
pub proof fn law_assignments_are_final(
    validation: EntryValidationData<Assignment>,
    ctx: AdminContext,
)
    requires
        !(validation is Create),
    ensures
        assignment_validation(validation, ctx) is Err,
{
}

/// An agent may edit wiki content exactly when it holds the editor or the
/// administrator role.
pub proof fn law_editors_and_admins_edit(editor: Result<(), String>, admin: Result<(), String>)
    ensures
        can_edit(editor, admin) is Ok <==> (editor is Ok || admin is Ok),
{
}

/// A page's title never changes: an accepted update keeps it.
pub proof fn law_page_title_is_fixed(
    new_entry: Page,
    old_entry: Page,
    validation_data: ValidationData,
    editor: Result<(), String>,
    admin: Result<(), String>,
)
    ensures
        page_validation(
            EntryValidationData::Modify { new_entry, old_entry, validation_data },
            editor,
            admin,
        ) is Ok <==> ((editor is Ok || admin is Ok) && new_entry.title@ == old_entry.title@),
{
}

/// Dropping an address from a list of sections leaves no occurrence of it
/// and keeps every other address.
pub proof fn law_deleted_section_is_gone(sections: Seq<Seq<char>>, address: Seq<char>, other: Seq<char>)
    requires
        other != address,
    ensures
        !sections.filter(|a: Seq<char>| a != address).contains(address),
        sections.contains(other) <==> sections.filter(|a: Seq<char>| a != address).contains(
            other,
        ),
{
    broadcast use vstd::seq_lib::group_filter_ensures;

    let keep = |a: Seq<char>| a != address;
    let kept = sections.filter(keep);
    if kept.contains(address) {
        let j = choose|j: int| 0 <= j < kept.len() && kept[j] == address;
        sections.lemma_filter_pred(keep, j);
    }
    if sections.contains(other) {
        let i = choose|i: int| 0 <= i < sections.len() && sections[i] == other;
        sections.lemma_filter_contains(keep, i);
    }
    if kept.contains(other) {
        sections.lemma_filter_contains_rev(keep, other);
    }
}

/// Updating a section keeps the page's sections in number and order: the
/// new address stands wherever the old one stood, and nowhere else does
/// anything change.
pub proof fn law_updated_section_replaces(
    sections: Seq<Seq<char>>,
    old_address: Seq<char>,
    new_address: Seq<char>,
    i: int,
)
    requires
        0 <= i < sections.len(),
    ensures
        ({
            let updated = sections.map_values(
                |a: Seq<char>|
                    if a == old_address {
                        new_address
                    } else {
                        a
                    },
            );
            &&& updated.len() == sections.len()
            &&& sections[i] == old_address ==> updated[i] == new_address
            &&& sections[i] != old_address ==> updated[i] == sections[i]
        }),
{
}

/// Every title that filtering keeps holds the filter text.
pub proof fn law_filtered_titles_match(titles: Seq<Seq<char>>, data: Seq<char>, i: int)
    requires
        0 <= i < titles.filter(|t: Seq<char>| occurs_in(data, t)).len(),
    ensures
        occurs_in(data, titles.filter(|t: Seq<char>| occurs_in(data, t))[i]),
        titles.contains(titles.filter(|t: Seq<char>| occurs_in(data, t))[i]),
{
    broadcast use vstd::seq_lib::group_filter_ensures;

    let keep = |t: Seq<char>| occurs_in(data, t);
    let kept = titles.filter(keep);
    titles.lemma_filter_pred(keep, i);
    assert(kept.contains(kept[i]));
    titles.lemma_filter_contains_rev(keep, kept[i]);
}

/// The assignments `p` lead up from the agent at `start`: the first assigns
/// a role to `start`, and each next one to the issuer of the one before.
pub open spec fn leads_up_from(p: Seq<Assignment>, start: Seq<char>) -> bool {
    &&& p.len() > 0 ==> p[0].agent_address@ == start
    &&& forall|k: int|
        0 <= k < p.len() - 1 ==> (#[trigger] p[k]).admin_address@ == p[k + 1].agent_address@
}

/// The agent a walk from `start` that has found `p` looks at next.
pub open spec fn next_agent(p: Seq<Assignment>, start: Seq<char>) -> Seq<char> {
    if p.len() == 0 {
        start
    } else {
        p.last().admin_address@
    }
}

/// Where a walk from `start` stands is consistent: the assignments found
/// lead up from `start`, and the agent looked at is the issuer of the last
/// one found.
pub open spec fn walk_consistent(state: AdminWalk, start: Seq<char>) -> bool {
    match state {
        AdminWalk::CheckingInitialAdmin { admin, pending } => leads_up_from(pending@, start)
            && admin@ == next_agent(pending@, start),
        AdminWalk::AwaitingAdminRoleAddress { admin, pending } => leads_up_from(pending@, start)
            && admin@ == next_agent(pending@, start),
        AdminWalk::AwaitingAssignments { admin, pending, .. } => leads_up_from(pending@, start)
            && admin@ == next_agent(pending@, start),
        AdminWalk::Committing { pending } => leads_up_from(pending@, start),
        AdminWalk::Finished => true,
    }
}

/// Every step of a walk up the administrator assignments keeps it
/// consistent; and each assignment it commits closes a run of assignments,
/// still to be committed after it, that leads up from the starting agent:
/// the walk commits an agent's administrator assignment only after that of
/// its issuer.
pub proof fn law_walk_follows_issuers(
    start: Seq<char>,
    state: AdminWalk,
    event: AdminWalkEvent,
    next: (AdminWalk, AdminWalkAction),
)
    requires
        walk_consistent(state, start),
        walk_step(state, event, next),
    ensures
        walk_consistent(next.0, start),
        next.1 matches AdminWalkAction::Commit(a) ==> (next.0 matches AdminWalk::Committing {
            pending,
        } && leads_up_from(pending@.push(a), start)),
{
    match (state, event) {
        (AdminWalk::CheckingInitialAdmin { admin, pending }, AdminWalkEvent::InitialAdmin(r)) => {
            if r == Ok::<bool, String>(true) && pending@.len() > 0 {
                assert(pending@.drop_last().push(pending@.last()) =~= pending@);
            }
        },
        (AdminWalk::AwaitingAssignments { admin, admin_role_address, pending }, AdminWalkEvent::Assignments(r)) => {
            if let Ok(list) = r {
                if exists|i: int|
                    0 <= i < list@.len() && #[trigger] list@[i].agent_address@ == admin@
                        && list@[i].role_address@ == admin_role_address@ {
                    let i = choose|i: int|
                        {
                            &&& 0 <= i < list@.len()
                            &&& #[trigger] list@[i].agent_address@ == admin@
                            &&& list@[i].role_address@ == admin_role_address@
                            &&& forall|j: int|
                                0 <= j < i ==> !(#[trigger] list@[j].agent_address@ == admin@
                                    && list@[j].role_address@ == admin_role_address@)
                            &&& next.0 matches AdminWalk::CheckingInitialAdmin {
                                admin: issuer,
                                pending: found,
                            } && issuer == list@[i].admin_address && found@ == pending@.push(
                                list@[i],
                            )
                            &&& next.1 == AdminWalkAction::CheckInitialAdmin(list@[i].admin_address)
                        };
                    let p2 = pending@.push(list@[i]);
                    assert forall|k: int| 0 <= k < p2.len() - 1 implies (#[trigger] p2[k]).admin_address@
                        == p2[k + 1].agent_address@ by {
                        if k < pending@.len() - 1 {
                            assert(p2[k] == pending@[k]);
                            assert(p2[k + 1] == pending@[k + 1]);
                        }
                    }
                }
            }
        },
        (AdminWalk::Committing { pending }, AdminWalkEvent::Committed(r)) => {
            if r is Ok && pending@.len() > 0 {
                assert(pending@.drop_last().push(pending@.last()) =~= pending@);
            }
        },
        _ => {},
    }
}

/// A text that occurs in a text occurring in a third occurs in the third.
pub proof fn lemma_occurs_transitive(inner: Seq<char>, middle: Seq<char>, text: Seq<char>)
    requires
        occurs_in(inner, middle),
        occurs_in(middle, text),
    ensures
        occurs_in(inner, text),
{
    let i = choose|i: int|
        0 <= i && i + middle.len() <= text.len() && #[trigger] text.subrange(i, i + middle.len())
            == middle;
    let j = choose|j: int|
        0 <= j && j + inner.len() <= middle.len() && #[trigger] middle.subrange(j, j + inner.len())
            == inner;
    assert(text.subrange(i + j, i + j + inner.len()) =~= inner);
}

/// Filtering titles by a longer text, in which a shorter one occurs, keeps
/// a subsequence of what filtering by the shorter text keeps: exactly those
/// of them in which the longer text occurs.
pub proof fn law_narrower_filter_keeps_less(titles: Seq<Seq<char>>, shorter: Seq<char>, longer: Seq<char>)
    requires
        occurs_in(shorter, longer),
    ensures
        titles.filter(|t: Seq<char>| occurs_in(longer, t)) == titles.filter(
            |t: Seq<char>| occurs_in(shorter, t),
        ).filter(|t: Seq<char>| occurs_in(longer, t)),
    decreases titles.len(),
{
    let wide = |t: Seq<char>| occurs_in(shorter, t);
    let narrow = |t: Seq<char>| occurs_in(longer, t);
    if titles.len() == 0 {
        reveal(Seq::filter);
        assert(titles.filter(wide) =~= Seq::<Seq<char>>::empty());
    } else {
        let rest = titles.drop_last();
        let last = titles.last();
        law_narrower_filter_keeps_less(rest, shorter, longer);
        assert(rest.push(last) =~= titles);
        rest.lemma_filter_push(last, narrow);
        rest.lemma_filter_push(last, wide);
        if narrow(last) {
            lemma_occurs_transitive(shorter, longer, last);
            rest.filter(wide).lemma_filter_push(last, narrow);
        } else if wide(last) {
            rest.filter(wide).lemma_filter_push(last, narrow);
        }
    }
}

/// The chain entry at `k` is an app entry of type `entry_type` at `address`
/// (its address could be had).
pub open spec fn entry_at<T>(e: ChainEntry<T>, entry_type: Seq<char>, address: Seq<char>) -> bool {
    e matches ChainEntry::App { entry_type: t, address: Ok(a), .. } && t@ == entry_type && a@
        == address
}

/// Every app entry of `chain` before `k` has its address, and none is of
/// type `entry_type` at `address`.
pub open spec fn clear_before<T>(chain: Seq<ChainEntry<T>>, k: int, entry_type: Seq<char>, address: Seq<char>) -> bool {
    forall|j: int|
        0 <= j < k ==> ((#[trigger] chain[j]) matches ChainEntry::App { entry_type: t, address: a, .. }
            ==> (a is Ok && !(t@ == entry_type && a->Ok_0@ == address)))
}

proof fn lemma_lookup_first<T>(chain: Seq<ChainEntry<T>>, i: int, k: int, entry_type: Seq<char>, address: Seq<char>)
    requires
        0 <= i <= k < chain.len(),
        entry_at(chain[k], entry_type, address),
        clear_before(chain, k, entry_type, address),
    ensures
        lookup_from(chain, i, entry_type, address) == match chain[k] {
            ChainEntry::App { content: Some(c), .. } => Lookup::Found(c),
            _ => Lookup::<T>::Failed(conversion_error()),
        },
    decreases k - i,
{
    if i < k {
        assert(chain[i] == chain[i]);
        lemma_lookup_first(chain, i + 1, k, entry_type, address);
    }
}

proof fn lemma_lookup_none<T>(chain: Seq<ChainEntry<T>>, i: int, entry_type: Seq<char>, address: Seq<char>)
    requires
        0 <= i <= chain.len(),
        clear_before(chain, chain.len() as int, entry_type, address),
    ensures
        lookup_from(chain, i, entry_type, address) == Lookup::<T>::Missing,
    decreases chain.len() - i,
{
    if i < chain.len() {
        assert(chain[i] == chain[i]);
        lemma_lookup_none(chain, i + 1, entry_type, address);
    }
}

/// A search by address finds the first app entry of the type at the
/// address, passing over entries of other kinds and app entries of other
/// types or at other addresses; it comes to nothing where there is none;
/// the entry found gives its content, or the conversion error where it has
/// none; and the search fails with the error of the first app entry on the
/// way whose address cannot be had.
pub proof fn law_lookup_by_address<T>(chain: Seq<ChainEntry<T>>, entry_type: Seq<char>, address: Seq<char>, k: int)
    ensures
        0 <= k < chain.len() && entry_at(chain[k], entry_type, address) && clear_before(
            chain,
            k,
            entry_type,
            address,
        ) ==> lookup_from(chain, 0, entry_type, address) == match chain[k] {
            ChainEntry::App { content: Some(c), .. } => Lookup::Found(c),
            _ => Lookup::<T>::Failed(conversion_error()),
        },
        clear_before(chain, chain.len() as int, entry_type, address) ==> lookup_from(
            chain,
            0,
            entry_type,
            address,
        ) == Lookup::<T>::Missing,
        0 <= k < chain.len() && clear_before(chain, k, entry_type, address) && chain[k] is App
            && chain[k]->address is Err ==> lookup_from(chain, 0, entry_type, address)
            == Lookup::<T>::Failed(chain[k]->address->Err_0@),
{
    if 0 <= k < chain.len() && entry_at(chain[k], entry_type, address) && clear_before(
        chain,
        k,
        entry_type,
        address,
    ) {
        lemma_lookup_first(chain, 0, k, entry_type, address);
    }
    if clear_before(chain, chain.len() as int, entry_type, address) {
        lemma_lookup_none(chain, 0, entry_type, address);
    }
    if 0 <= k < chain.len() && clear_before(chain, k, entry_type, address) && chain[k] is App
        && chain[k]->address is Err {
        lemma_failed_at(chain, 0, k, entry_type, address);
    }
}

proof fn lemma_failed_at<T>(chain: Seq<ChainEntry<T>>, i: int, k: int, entry_type: Seq<char>, address: Seq<char>)
    requires
        0 <= i <= k < chain.len(),
        chain[k] is App,
        chain[k]->address is Err,
        clear_before(chain, k, entry_type, address),
    ensures
        lookup_from(chain, i, entry_type, address) == Lookup::<T>::Failed(
            chain[k]->address->Err_0@,
        ),
    decreases k - i,
{
    if i < k {
        assert(chain[i] == chain[i]);
        lemma_failed_at(chain, i + 1, k, entry_type, address);
    }
}

/// The chain holds, at some position, an assignment of the role at `role`
/// to the agent `agent`.
pub open spec fn assigned_on_chain(chain: Seq<ChainEntry<Assignment>>, role: Seq<char>, agent: Seq<char>) -> bool {
    exists|k: int|
        0 <= k < chain.len() && ((#[trigger] chain[k]) matches ChainEntry::App {
            entry_type: t,
            content: Some(c),
            ..
        } && t@ == ASSIGNMENT_TYPE@ && c.role_address@ == role && c.agent_address@ == agent)
}

/// Who is an administrator: every initial administrator; any other agent
/// exactly when the chain assigns it the administrator role. Failing to
/// read the initial administrators, or (for an agent that is not one) to
/// compute the administrator role's address, gives that error.
pub proof fn law_who_is_admin(agent: Seq<char>, ctx: AdminContext, chain: Seq<ChainEntry<Assignment>>)
    ensures
        ctx.initial_admins matches Err(e) ==> admin_status(agent, ctx, chain) == Err::<bool, Seq<char>>(e@),
        ctx.initial_admins matches Ok(l) && l.deep_view().contains(agent) ==> admin_status(agent, ctx, chain)
            == Ok::<bool, Seq<char>>(true),
        ctx.initial_admins matches Ok(l) && !l.deep_view().contains(agent) ==> match ctx.admin_role_address {
            Err(e) => admin_status(agent, ctx, chain) == Err::<bool, Seq<char>>(e@),
            Ok(r) => admin_status(agent, ctx, chain) == Ok::<bool, Seq<char>>(
                assigned_on_chain(chain, r@, agent),
            ),
        },
{
    if ctx.initial_admins is Ok && ctx.admin_role_address is Ok {
        let r = ctx.admin_role_address->Ok_0;
        if assigned_on_chain(chain, r@, agent) {
            let k = choose|k: int|
                0 <= k < chain.len() && ((#[trigger] chain[k]) matches ChainEntry::App {
                    entry_type: t,
                    content: Some(c),
                    ..
                } && t@ == ASSIGNMENT_TYPE@ && c.role_address@ == r@ && c.agent_address@ == agent);
            assert(crate::chain::typed_content(chain[k], ASSIGNMENT_TYPE@) is Some);
        }
        if crate::validation::holds_role(chain, agent, r@) {
            let k = choose|k: int|
                0 <= k < chain.len() && (#[trigger] crate::chain::typed_content(
                    chain[k],
                    ASSIGNMENT_TYPE@,
                ) matches Some(a) && a.role_address@ == r@ && a.agent_address@ == agent);
            assert(chain[k] == chain[k]);
        }
    }
}

/// A role other than the administrator role is created whenever any one of
/// the signers is an administrator, wherever it stands among them.
pub proof fn law_any_admin_signer_creates_roles(
    entry: Role,
    validation_data: ValidationData,
    ctx: AdminContext,
    i: int,
)
    requires
        entry.name@ != ADMINISTRATOR_ROLE@,
        validation_data.source_chain_entries is Some,
        0 <= i < validation_data.sources@.len(),
        admin_status(
            validation_data.sources@[i]@,
            ctx,
            validation_data.source_chain_entries->0.assignments@,
        ) == Ok::<bool, Seq<char>>(true),
    ensures
        role_validation(EntryValidationData::Create { entry, validation_data }, ctx) == Ok::<
            (),
            Seq<char>,
        >(()),
{
}

/// A role other than the administrator role, none of whose signers is an
/// administrator, is refused with "Only admins can create roles".
pub proof fn law_roles_refused_without_admin_signer(
    entry: Role,
    validation_data: ValidationData,
    ctx: AdminContext,
)
    requires
        entry.name@ != ADMINISTRATOR_ROLE@,
        validation_data.source_chain_entries is Some,
        forall|i: int|
            0 <= i < validation_data.sources@.len() ==> admin_status(
                #[trigger] validation_data.sources@[i]@,
                ctx,
                validation_data.source_chain_entries->0.assignments@,
            ) != Ok::<bool, Seq<char>>(true),
    ensures
        role_validation(EntryValidationData::Create { entry, validation_data }, ctx) == Err::<
            (),
            Seq<char>,
        >("Only admins can create roles"@),
{
}

/// An assignment is accepted when it is signed by its issuer, carries no
/// metadata if it assigns the administrator role, the assigned role's entry
/// is the first entry of its type at its address on the author's chain, and
/// the issuer is an administrator (an initial one or one appointed on the
/// chain).
pub proof fn law_assignments_accepted_when_rules_hold(
    entry: Assignment,
    sources: Vec<String>,
    chain: SourceChain,
    ctx: AdminContext,
    k: int,
)
    requires
        sources.deep_view().contains(entry.admin_address@),
        ctx.admin_role_address is Ok,
        !(entry.role_address@ == ctx.admin_role_address->Ok_0@ && entry.metadata is Some),
        0 <= k < chain.roles@.len(),
        entry_at(chain.roles@[k], ROLE_TYPE@, entry.role_address@),
        chain.roles@[k] matches ChainEntry::App { content: Some(_), .. },
        clear_before(chain.roles@, k, ROLE_TYPE@, entry.role_address@),
        admin_status(entry.admin_address@, ctx, chain.assignments@) == Ok::<bool, Seq<char>>(true),
    ensures
        assignment_validation(
            EntryValidationData::Create {
                entry,
                validation_data: ValidationData { sources, source_chain_entries: Some(chain) },
            },
            ctx,
        ) == Ok::<(), Seq<char>>(()),
{
    law_lookup_by_address(chain.roles@, ROLE_TYPE@, entry.role_address@, k);
}

/// Why an assignment is refused, rule by rule, in the order the rules are
/// checked: not signed by its issuer; an administrator assignment with
/// metadata; no entry of the assigned role on the chain; an issuer that is
/// no administrator.
pub proof fn law_assignment_refusals(
    entry: Assignment,
    sources: Vec<String>,
    chain: SourceChain,
    ctx: AdminContext,
)
    ensures
        ({
            let v = EntryValidationData::Create {
                entry,
                validation_data: ValidationData { sources, source_chain_entries: Some(chain) },
            };
            &&& !sources.deep_view().contains(entry.admin_address@) ==> assignment_validation(v, ctx)
                == Err::<(), Seq<char>>("Assignment must be signed by its issuing admin"@)
            &&& sources.deep_view().contains(entry.admin_address@) && ctx.admin_role_address is Ok
                && entry.role_address@ == ctx.admin_role_address->Ok_0@ && entry.metadata is Some ==> assignment_validation(v, ctx)
                == Err::<(), Seq<char>>("Cannot put metadata in an administrator assignment"@)
            &&& sources.deep_view().contains(entry.admin_address@) && ctx.admin_role_address is Ok
                && !(entry.role_address@ == ctx.admin_role_address->Ok_0@ && entry.metadata is Some) && clear_before(
                chain.roles@,
                chain.roles@.len() as int,
                ROLE_TYPE@,
                entry.role_address@,
            ) ==> assignment_validation(v, ctx) == Err::<(), Seq<char>>(
                "The role entry should always accompany the assignment entry"@,
            )
            &&& sources.deep_view().contains(entry.admin_address@) && ctx.admin_role_address is Ok
                && !(entry.role_address@ == ctx.admin_role_address->Ok_0@ && entry.metadata is Some) && lookup_from(
                chain.roles@,
                0,
                ROLE_TYPE@,
                entry.role_address@,
            ) is Found && admin_status(entry.admin_address@, ctx, chain.assignments@) == Ok::<
                bool,
                Seq<char>,
            >(false) ==> assignment_validation(v, ctx) == Err::<(), Seq<char>>(
                "Only admins can create roles"@,
            )
        }),
{
    law_lookup_by_address(chain.roles@, ROLE_TYPE@, entry.role_address@, 0);
}

/// Creating or deleting a page is accepted exactly when its author holds
/// the editor or the administrator role, and is otherwise refused with
/// "Only admins and editors edit content".
pub proof fn law_page_create_delete_by_editors(
    validation: EntryValidationData<Page>,
    editor: Result<(), String>,
    admin: Result<(), String>,
)
    requires
        validation is Create || validation is Delete,
    ensures
        page_validation(validation, editor, admin) == if editor is Ok || admin is Ok {
            Ok::<(), Seq<char>>(())
        } else {
            Err::<(), Seq<char>>("Only admins and editors edit content"@)
        },
{
}

/// When a walk up the administrator assignments reaches an initial
/// administrator, it commits the last assignment it found (and keeps the
/// others for later); after each commit it commits the next one back; and
/// it ends successfully only when no found assignment is left uncommitted.
pub proof fn law_walk_commits_every_found_assignment(
    state: AdminWalk,
    event: AdminWalkEvent,
    next: (AdminWalk, AdminWalkAction),
)
    requires
        walk_step(state, event, next),
    ensures
        state is CheckingInitialAdmin && state->CheckingInitialAdmin_pending@.len() > 0 && event
            == AdminWalkEvent::InitialAdmin(Ok(true)) ==> {
            &&& next.1 == AdminWalkAction::Commit(state->CheckingInitialAdmin_pending@.last())
            &&& next.0 is Committing
            &&& next.0->Committing_pending@ == state->CheckingInitialAdmin_pending@.drop_last()
        },
        state is Committing && state->Committing_pending@.len() > 0 && event
            == AdminWalkEvent::Committed(Ok(())) ==> {
            &&& next.1 == AdminWalkAction::Commit(state->Committing_pending@.last())
            &&& next.0 is Committing
            &&& next.0->Committing_pending@ == state->Committing_pending@.drop_last()
        },
        next.1 == AdminWalkAction::Done(Ok(())) ==> match state {
            AdminWalk::CheckingInitialAdmin { pending, .. } => pending@.len() == 0 && event
                == AdminWalkEvent::InitialAdmin(Ok(true)),
            AdminWalk::Committing { pending } => pending@.len() == 0 && event is Committed
                && event->Committed_0 is Ok,
            _ => false,
        },
        next.1 is Done && next.1->Done_0 is Err ==> next.0 is Finished,
{
    match (state, event) {
        (AdminWalk::CheckingInitialAdmin { admin, pending }, AdminWalkEvent::InitialAdmin(r)) => {
            if next.1 == AdminWalkAction::Done(Ok(())) {
                assert(r == Ok::<bool, String>(true));
                assert(pending@.len() == 0);
            }
        },
        (AdminWalk::Committing { pending }, AdminWalkEvent::Committed(r)) => {
            if next.1 == AdminWalkAction::Done(Ok(())) {
                assert(r is Ok);
                assert(pending@.len() == 0);
            }
        },
        _ => {},
    }
    if let (AdminWalk::AwaitingAssignments { admin, admin_role_address, pending }, AdminWalkEvent::Assignments(Ok(list))) = (state, event) {
        if exists|i: int|
            0 <= i < list@.len() && #[trigger] list@[i].agent_address@ == admin@
                && list@[i].role_address@ == admin_role_address@ {
            let i = choose|i: int|
                {
                    &&& 0 <= i < list@.len()
                    &&& #[trigger] list@[i].agent_address@ == admin@
                    &&& list@[i].role_address@ == admin_role_address@
                    &&& forall|j: int|
                        0 <= j < i ==> !(#[trigger] list@[j].agent_address@ == admin@
                            && list@[j].role_address@ == admin_role_address@)
                    &&& next.0 matches AdminWalk::CheckingInitialAdmin {
                        admin: issuer,
                        pending: found,
                    } && issuer == list@[i].admin_address && found@ == pending@.push(list@[i])
                    &&& next.1 == AdminWalkAction::CheckInitialAdmin(list@[i].admin_address)
                };
            assert(next.1 != AdminWalkAction::Done(Ok(())));
        } else {
            assert(next.1 != AdminWalkAction::Done(Ok(())));
        }
    }
}

/// An entry's content counts as of a type exactly when the entry is an app
/// entry of that type whose content was read.
pub proof fn law_typed_content<T>(e: ChainEntry<T>, entry_type: Seq<char>)
    ensures
        typed_content(e, entry_type) is Some <==> (e is App && e->entry_type@ == entry_type
            && e->content is Some),
        typed_content(e, entry_type) is Some ==> typed_content(e, entry_type)->0 == e->content->0,
{
}

/// A text occurs in any text that has it somewhere inside, and never in a
/// shorter text.
pub proof fn law_occurs_in(pattern: Seq<char>, before: Seq<char>, after: Seq<char>, text: Seq<char>)
    ensures
        occurs_in(pattern, before + pattern + after),
        occurs_in(pattern, text) ==> pattern.len() <= text.len(),
{
    let t = before + pattern + after;
    assert(t.subrange(before.len() as int, (before.len() + pattern.len()) as int) =~= pattern);
}

/// Editing is refused with "Only admins and editors edit content" exactly
/// when the author holds neither the editor nor the administrator role.
pub proof fn law_edit_refusal_message(editor: Result<(), String>, admin: Result<(), String>)
    ensures
        editor is Err && admin is Err ==> can_edit(editor, admin) == Err::<(), Seq<char>>(
            "Only admins and editors edit content"@,
        ),
        editor is Ok || admin is Ok ==> can_edit(editor, admin) == Ok::<(), Seq<char>>(()),
{
}

/// A page update by an editor or administrator that changes the title is
/// refused with "no se puede actualizar un titulo".
pub proof fn law_page_title_change_refused(
    new_entry: Page,
    old_entry: Page,
    validation_data: ValidationData,
    editor: Result<(), String>,
    admin: Result<(), String>,
)
    requires
        editor is Ok || admin is Ok,
        new_entry.title@ != old_entry.title@,
    ensures
        page_validation(
            EntryValidationData::Modify { new_entry, old_entry, validation_data },
            editor,
            admin,
        ) == Err::<(), Seq<char>>("no se puede actualizar un titulo"@),
{
}

/// The messages with which roles and assignments are refused when changed
/// or deleted.
pub proof fn law_final_entry_messages(
    role: Role,
    other_role: Role,
    assignment: Assignment,
    other_assignment: Assignment,
    validation_data: ValidationData,
    ctx: AdminContext,
)
    ensures
        role.name@ != other_role.name@ ==> role_validation(
            EntryValidationData::Modify {
                new_entry: role,
                old_entry: other_role,
                validation_data,
            },
            ctx,
        ) == Err::<(), Seq<char>>("Cannot modify the contents of the entry"@),
        role_validation(EntryValidationData::Delete { old_entry: role, validation_data }, ctx)
            == Err::<(), Seq<char>>("Cannot delete roles"@),
        assignment_validation(
            EntryValidationData::Modify {
                new_entry: assignment,
                old_entry: other_assignment,
                validation_data,
            },
            ctx,
        ) == Err::<(), Seq<char>>("Cannot modify or delete role assignments"@),
        assignment_validation(
            EntryValidationData::Delete { old_entry: assignment, validation_data },
            ctx,
        ) == Err::<(), Seq<char>>("Cannot modify or delete role assignments"@),
{
}

/// How a walk up the administrator assignments goes from an agent: an error
/// from the outside world ends it with that error; an agent that is no
/// initial administrator leads to asking for the administrator role's
/// address, then to loading the agent's assignments; among those, the
/// first that assigns the agent the administrator role is kept and its
/// issuer looked at next; where there is none, the walk ends with
/// "Agent with address <agent> is not an administrator".
pub proof fn law_walk_climbs(
    state: AdminWalk,
    event: AdminWalkEvent,
    next: (AdminWalk, AdminWalkAction),
    i: int,
)
    requires
        walk_step(state, event, next),
    ensures
        (event is InitialAdmin && event->InitialAdmin_0 is Err) ==> (next.0 is Finished
            && next.1 is Done && next.1->Done_0 is Err && next.1->Done_0->Err_0@
            == event->InitialAdmin_0->Err_0@),
        (event is AdminRoleAddress && event->AdminRoleAddress_0 is Err) ==> (next.0 is Finished
            && next.1 is Done && next.1->Done_0 is Err && next.1->Done_0->Err_0@
            == event->AdminRoleAddress_0->Err_0@),
        (event is Assignments && event->Assignments_0 is Err) ==> (next.0 is Finished && next.1 is Done
            && next.1->Done_0 is Err && next.1->Done_0->Err_0@ == event->Assignments_0->Err_0@),
        (event is Committed && event->Committed_0 is Err) ==> (next.0 is Finished && next.1 is Done
            && next.1->Done_0 is Err && next.1->Done_0->Err_0@ == event->Committed_0->Err_0@),
        state is CheckingInitialAdmin && event == AdminWalkEvent::InitialAdmin(Ok(false)) ==> next == (
            AdminWalk::AwaitingAdminRoleAddress {
                admin: state->CheckingInitialAdmin_admin,
                pending: state->CheckingInitialAdmin_pending,
            },
            AdminWalkAction::ComputeAdminRoleAddress,
        ),
        state is AwaitingAdminRoleAddress && event is AdminRoleAddress && event->AdminRoleAddress_0 is Ok
            ==> next.1 == AdminWalkAction::LoadAssignments(state->AwaitingAdminRoleAddress_admin)
            && next.0 is AwaitingAssignments && next.0->AwaitingAssignments_admin
            == state->AwaitingAdminRoleAddress_admin && next.0->AwaitingAssignments_admin_role_address
            == event->AdminRoleAddress_0->Ok_0 && next.0->AwaitingAssignments_pending
            == state->AwaitingAdminRoleAddress_pending,
        ({
            let admin = state->AwaitingAssignments_admin@;
            let role = state->AwaitingAssignments_admin_role_address@;
            let list = event->Assignments_0->Ok_0@;
            state is AwaitingAssignments && event is Assignments && event->Assignments_0 is Ok && 0 <= i
                < list.len() && list[i].agent_address@ == admin && list[i].role_address@ == role
                && (forall|j: int|
                0 <= j < i ==> !((#[trigger] list[j]).agent_address@ == admin && list[j].role_address@
                    == role)) ==> {
                &&& next.1 == AdminWalkAction::CheckInitialAdmin(list[i].admin_address)
                &&& next.0 is CheckingInitialAdmin
                &&& next.0->CheckingInitialAdmin_admin == list[i].admin_address
                &&& next.0->CheckingInitialAdmin_pending@
                    == state->AwaitingAssignments_pending@.push(list[i])
            }
        }),
        ({
            let admin = state->AwaitingAssignments_admin@;
            let role = state->AwaitingAssignments_admin_role_address@;
            let list = event->Assignments_0->Ok_0@;
            state is AwaitingAssignments && event is Assignments && event->Assignments_0 is Ok
                && (forall|j: int|
                0 <= j < list.len() ==> !((#[trigger] list[j]).agent_address@ == admin
                    && list[j].role_address@ == role)) ==> (next.0 is Finished && next.1 is Done
                && next.1->Done_0 is Err && next.1->Done_0->Err_0@ == "Agent with address "@ + admin
                + " is not an administrator"@)
        }),
{
    if state is AwaitingAssignments && event is Assignments && event->Assignments_0 is Ok {
        let admin = state->AwaitingAssignments_admin@;
        let role = state->AwaitingAssignments_admin_role_address@;
        let list = event->Assignments_0->Ok_0@;
        if exists|i: int|
            0 <= i < list.len() && #[trigger] list[i].agent_address@ == admin
                && list[i].role_address@ == role {
            let k = choose|k: int|
                {
                    &&& 0 <= k < list.len()
                    &&& #[trigger] list[k].agent_address@ == admin
                    &&& list[k].role_address@ == role
                    &&& forall|j: int|
                        0 <= j < k ==> !(#[trigger] list[j].agent_address@ == admin
                            && list[j].role_address@ == role)
                    &&& next.0 matches AdminWalk::CheckingInitialAdmin {
                        admin: issuer,
                        pending: found,
                    } && issuer == list[k].admin_address && found@
                        == state->AwaitingAssignments_pending@.push(list[k])
                    &&& next.1 == AdminWalkAction::CheckInitialAdmin(list[k].admin_address)
                };
            if 0 <= i < list.len() && list[i].agent_address@ == admin && list[i].role_address@ == role
                && (forall|j: int|
                0 <= j < i ==> !((#[trigger] list[j]).agent_address@ == admin && list[j].role_address@
                    == role)) {
                if k < i {
                    assert(!(list[k].agent_address@ == admin && list[k].role_address@ == role));
                }
                if i < k {
                    assert(!(list[i].agent_address@ == admin && list[i].role_address@ == role));
                }
            }
        }
    }
}

} // verus!

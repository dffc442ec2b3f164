//! The beneficial-ownership link graph: every customer already read,
//! decorated with the representatives (organizations only) and the other
//! beneficial owners that share its customer key.

use vstd::prelude::*;
use crate::entities::{
    duplicate_text, individuals_from_excel, organizations_from_excel, other_owners_from_excel, representatives_from_excel,
    Individual, Organization, OtherOwner, Representative,
};
use crate::error::ExtractError;
use crate::template::Template;
use crate::workbook::Workbook;
use crate::join::{joined, Duplicate, JoinIndex, JoinKey};

verus! {

/// A reference to a person: key or identification, name and id number.
#[derive(Debug)]
pub struct PersonRef {
    pub id: Option<String>,
    pub full_name: Option<String>,
    pub id_number: Option<String>,
}

/// The persons behind a customer: its representatives (main group) and its
/// other beneficial owners.
#[derive(Debug)]
pub struct BenefitGroup {
    pub main_group: Option<Vec<PersonRef>>,
    pub other_group: Option<Vec<PersonRef>>,
}

/// An individual customer in the link graph.
#[derive(Debug)]
pub struct IndividualLink {
    pub id: String,
    pub name: Option<String>,
    pub id_number: Option<String>,
    pub is_principal: bool,
    pub benefit_group: Option<BenefitGroup>,
}

/// An organization customer in the link graph.
#[derive(Debug)]
pub struct OrganizationLink {
    pub id: String,
    pub name: Option<String>,
    pub id_number: Option<String>,
    pub benefit_group: BenefitGroup,
}

/// The beneficial-ownership section: every other beneficial owner, and the
/// links of every customer.
#[derive(Debug)]
pub struct BeneficialOwners {
    pub other_owners: Vec<OtherOwner>,
    pub individual_links: Vec<IndividualLink>,
    pub organization_links: Vec<OrganizationLink>,
}

pub open spec fn rep_ref(r: Representative) -> PersonRef {
    PersonRef { id: r.id, full_name: r.details.full_name, id_number: r.details.identification.id_number }
}

pub open spec fn owner_ref(o: OtherOwner) -> PersonRef {
    PersonRef { id: Some(o.id), full_name: o.details.full_name, id_number: o.details.identification.id_number }
}

/// The references of a joined group of other owners, if there is one; an
/// empty key joins nothing.
pub open spec fn other_refs(op: Seq<(String, OtherOwner)>, key: Seq<char>) -> Option<Seq<PersonRef>> {
    match (if key.len() == 0 { None } else { joined(op, seq![key]) }) {
        Some(v) => Some(v.map_values(|o: OtherOwner| owner_ref(o))),
        None => None,
    }
}

/// The references of a joined group of representatives, if there is one;
/// an empty key joins nothing.
pub open spec fn main_refs(rp: Seq<(String, Representative)>, key: Seq<char>) -> Option<Seq<PersonRef>> {
    match (if key.len() == 0 { None } else { joined(rp, seq![key]) }) {
        Some(v) => Some(v.map_values(|r: Representative| rep_ref(r))),
        None => None,
    }
}

pub open spec fn refs_view(g: Option<Vec<PersonRef>>) -> Option<Seq<PersonRef>> {
    match g {
        Some(v) => Some(v@),
        None => None,
    }
}

/// `l` links individual `p` with its other beneficial owners.
pub open spec fn individual_link_is(p: Individual, op: Seq<(String, OtherOwner)>, l: IndividualLink) -> bool {
    &&& l.id == p.id
    &&& l.name == p.full_name
    &&& l.id_number == p.identification.id_number
    &&& l.is_principal
    &&& match other_refs(op, p.id@) {
        Some(refs) => l.benefit_group is Some && l.benefit_group->Some_0.main_group is None && refs_view(
            l.benefit_group->Some_0.other_group,
        ) == Some(refs),
        None => l.benefit_group is None,
    }
}

/// `l` links organization `o` with its representatives and other beneficial
/// owners.
pub open spec fn organization_link_is(
    o: Organization,
    rp: Seq<(String, Representative)>,
    op: Seq<(String, OtherOwner)>,
    l: OrganizationLink,
) -> bool {
    &&& l.id == o.id
    &&& l.name == o.name
    &&& l.id_number == o.enterprise_code.code
    &&& refs_view(l.benefit_group.main_group) == main_refs(rp, o.id@)
    &&& refs_view(l.benefit_group.other_group) == other_refs(op, o.id@)
}

/// The values of all groups of an index, group after group.
pub open spec fn flatten_groups<V>(groups: Seq<(String, Vec<V>)>) -> Seq<V>
    decreases groups.len(),
{
    if groups.len() == 0 {
        Seq::empty()
    } else {
        flatten_groups(groups.drop_last()) + groups.last().1@
    }
}

fn owner_refs(v: &Vec<OtherOwner>) -> (r: Vec<PersonRef>)
    ensures
        r@ == v@.map_values(|o: OtherOwner| owner_ref(o)),
{
    let mut out: Vec<PersonRef> = Vec::new();
    let mut i: usize = 0;
    while i < v.len()
        invariant
            i <= v@.len(),
            out@ == v@.subrange(0, i as int).map_values(|o: OtherOwner| owner_ref(o)),
        decreases v@.len() - i,
    {
        out.push(PersonRef {
            id: Some(v[i].id.clone()),
            full_name: duplicate_text(&v[i].details.full_name),
            id_number: duplicate_text(&v[i].details.identification.id_number),
        });
        assert(out@ =~= v@.subrange(0, i + 1).map_values(|o: OtherOwner| owner_ref(o)));
        i = i + 1;
    }
    assert(v@.subrange(0, v@.len() as int) =~= v@);
    out
}

fn rep_refs(v: &Vec<Representative>) -> (r: Vec<PersonRef>)
    ensures
        r@ == v@.map_values(|x: Representative| rep_ref(x)),
{
    let mut out: Vec<PersonRef> = Vec::new();
    let mut i: usize = 0;
    while i < v.len()
        invariant
            i <= v@.len(),
            out@ == v@.subrange(0, i as int).map_values(|x: Representative| rep_ref(x)),
        decreases v@.len() - i,
    {
        out.push(PersonRef {
            id: duplicate_text(&v[i].id),
            full_name: duplicate_text(&v[i].details.full_name),
            id_number: duplicate_text(&v[i].details.identification.id_number),
        });
        assert(out@ =~= v@.subrange(0, i + 1).map_values(|x: Representative| rep_ref(x)));
        i = i + 1;
    }
    assert(v@.subrange(0, v@.len() as int) =~= v@);
    out
}

/// The other owners joined to a key, as references.
fn other_group_of(others: &JoinIndex<String, OtherOwner>, key: &String) -> (r: Option<Vec<PersonRef>>)
    ensures
        forall|op| #[trigger] others.represents(op) ==> refs_view(r) == other_refs(op, key@),
{
    if key.as_str().unicode_len() == 0 {
        return None;
    }
    assert(seq![key@] == key.key_view());
    match others.get(key) {
        Some(v) => Some(owner_refs(&v)),
        None => None,
    }
}

/// The representatives joined to a key, as references.
fn main_group_of(reps: &JoinIndex<String, Representative>, key: &String) -> (r: Option<Vec<PersonRef>>)
    ensures
        forall|rp| #[trigger] reps.represents(rp) ==> refs_view(r) == main_refs(rp, key@),
{
    if key.as_str().unicode_len() == 0 {
        return None;
    }
    assert(seq![key@] == key.key_view());
    match reps.get(key) {
        Some(v) => Some(rep_refs(&v)),
        None => None,
    }
}

/// `r` is the link graph of the given customers, representatives and other
/// beneficial owners.
pub open spec fn links_ok(
    individuals: Seq<Individual>,
    organizations: Seq<Organization>,
    representatives: JoinIndex<String, Representative>,
    others: JoinIndex<String, OtherOwner>,
    r: BeneficialOwners,
) -> bool {
    &&& r.other_owners@ == flatten_groups(others.groups@)
    &&& r.individual_links@.len() == individuals.len()
    &&& r.organization_links@.len() == organizations.len()
    &&& forall|rp, op| #[trigger] representatives.represents(rp) && #[trigger] others.represents(op) ==> {
        &&& forall|i: int| 0 <= i < individuals.len() ==> individual_link_is(individuals[i], op, #[trigger] r.individual_links@[i])
        &&& forall|i: int| 0 <= i < organizations.len() ==> organization_link_is(organizations[i], rp, op, #[trigger] r.organization_links@[i])
    }
}

/// `r` is the link graph once the other owners, individuals, organizations
/// and representatives have been read as `rw`, `ri`, `ro` and `rr`.
pub open spec fn owners_after(
    rw: Result<JoinIndex<String, OtherOwner>, ExtractError>,
    ri: Result<Vec<Individual>, ExtractError>,
    ro: Result<Vec<Organization>, ExtractError>,
    rr: Result<JoinIndex<String, Representative>, ExtractError>,
    r: Result<BeneficialOwners, ExtractError>,
) -> bool {
    match (rw, ri, ro, rr) {
        (Ok(w), Ok(i), Ok(o), Ok(p)) => r is Ok && links_ok(i@, o@, p, w, r->Ok_0),
        _ => r is Err,
    }
}

/// What reading the beneficial-owner graph gives.
pub open spec fn beneficial_owners_from_excel(t: Template, w: Workbook, year: int, r: Result<BeneficialOwners, ExtractError>) -> bool {
    exists|rw, ri, ro, rr|
        other_owners_from_excel(t, w, rw) && individuals_from_excel(t, w, year, ri) && organizations_from_excel(t, w, ro)
            && representatives_from_excel(t, w, rr) && #[trigger] owners_after(rw, ri, ro, rr, r)
}

impl BeneficialOwners {
    /// Reads the other beneficial owners, the individual and organization
    /// customers and the representatives, then links them.
    pub fn from_excel(template: &Template, workbook: &Workbook, current_year: i32) -> (r: Result<BeneficialOwners, ExtractError>)
        ensures
            beneficial_owners_from_excel(*template, *workbook, current_year as int, r),
    {
        let rw = OtherOwner::from_excel(template, workbook);
        let ri = Individual::from_excel(template, workbook, current_year);
        let ro = Organization::from_excel(template, workbook);
        let rr = Representative::from_excel(template, workbook);
        let ghost (gw, gi, go, gr) = (rw, ri, ro, rr);
        let r = match (rw, ri, ro, rr) {
            (Ok(w), Ok(i), Ok(o), Ok(p)) => Ok(BeneficialOwners::link(&i, &o, &p, &w)),
            (Err(e), _, _, _) => Err(e),
            (_, Err(e), _, _) => Err(e),
            (_, _, Err(e), _) => Err(e),
            (_, _, _, Err(e)) => Err(e),
        };
        assert(owners_after(gw, gi, go, gr, r));
        r
    }

    /// Builds the link graph over customers already read: each individual
    /// with its other beneficial owners, each organization with its
    /// representatives and other beneficial owners.
    pub fn link(
        individuals: &Vec<Individual>,
        organizations: &Vec<Organization>,
        representatives: &JoinIndex<String, Representative>,
        others: &JoinIndex<String, OtherOwner>,
    ) -> (r: BeneficialOwners)
        ensures
            links_ok(individuals@, organizations@, *representatives, *others, r),
    {
        let mut all_others: Vec<OtherOwner> = Vec::new();
        let mut g: usize = 0;
        while g < others.groups.len()
            invariant
                g <= others.groups@.len(),
                all_others@ == flatten_groups(others.groups@.subrange(0, g as int)),
            decreases others.groups@.len() - g,
        {
            let ghost before = all_others@;
            let mut k: usize = 0;
            while k < others.groups[g].1.len()
                invariant
                    g < others.groups@.len(),
                    k <= others.groups@[g as int].1@.len(),
                    all_others@ == before + others.groups@[g as int].1@.subrange(0, k as int),
                decreases others.groups@[g as int].1@.len() - k,
            {
                all_others.push(others.groups[g].1[k].duplicate());
                assert(all_others@ =~= before + others.groups@[g as int].1@.subrange(0, k + 1));
                k = k + 1;
            }
            assert(others.groups@[g as int].1@.subrange(0, k as int) =~= others.groups@[g as int].1@);
            assert(others.groups@.subrange(0, g + 1).drop_last() =~= others.groups@.subrange(0, g as int));
            g = g + 1;
        }
        assert(others.groups@.subrange(0, others.groups@.len() as int) =~= others.groups@);
        let mut individual_links: Vec<IndividualLink> = Vec::new();
        let mut i: usize = 0;
        while i < individuals.len()
            invariant
                i <= individuals@.len(),
                individual_links@.len() == i,
                forall|op| #[trigger] others.represents(op) ==> forall|k: int|
                    0 <= k < i ==> individual_link_is(individuals@[k], op, #[trigger] individual_links@[k]),
            decreases individuals@.len() - i,
        {
            let p = &individuals[i];
            let benefit_group = match other_group_of(others, &p.id) {
                Some(refs) => Some(BenefitGroup { main_group: None, other_group: Some(refs) }),
                None => None,
            };
            let ghost before = individual_links@;
            individual_links.push(IndividualLink {
                id: p.id.clone(),
                name: duplicate_text(&p.full_name),
                id_number: duplicate_text(&p.identification.id_number),
                is_principal: true,
                benefit_group,
            });
            assert forall|op| #[trigger] others.represents(op) implies forall|k: int|
                0 <= k < i + 1 ==> individual_link_is(individuals@[k], op, #[trigger] individual_links@[k]) by {
                assert forall|k: int| 0 <= k < i + 1 implies individual_link_is(individuals@[k], op, #[trigger] individual_links@[k]) by {
                    if k < i {
                        assert(individual_links@[k] == before[k]);
                    }
                }
            }
            i = i + 1;
        }
        let mut organization_links: Vec<OrganizationLink> = Vec::new();
        let mut j: usize = 0;
        while j < organizations.len()
            invariant
                j <= organizations@.len(),
                organization_links@.len() == j,
                forall|rp, op| #[trigger] representatives.represents(rp) && #[trigger] others.represents(op) ==> forall|k: int|
                    0 <= k < j ==> organization_link_is(organizations@[k], rp, op, #[trigger] organization_links@[k]),
            decreases organizations@.len() - j,
        {
            let o = &organizations[j];
            let ghost before = organization_links@;
            organization_links.push(OrganizationLink {
                id: o.id.clone(),
                name: duplicate_text(&o.name),
                id_number: duplicate_text(&o.enterprise_code.code),
                benefit_group: BenefitGroup {
                    main_group: main_group_of(representatives, &o.id),
                    other_group: other_group_of(others, &o.id),
                },
            });
            assert forall|rp, op| #[trigger] representatives.represents(rp) && #[trigger] others.represents(op) implies forall|k: int|
                0 <= k < j + 1 ==> organization_link_is(organizations@[k], rp, op, #[trigger] organization_links@[k]) by {
                assert forall|k: int| 0 <= k < j + 1 implies organization_link_is(organizations@[k], rp, op, #[trigger] organization_links@[k]) by {
                    if k < j {
                        assert(organization_links@[k] == before[k]);
                    }
                }
            }
            j = j + 1;
        }
        BeneficialOwners { other_owners: all_others, individual_links, organization_links }
    }
}

} // verus!

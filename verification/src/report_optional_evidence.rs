//! Human lines for the optional registry and package evidence: each present
//! field on a line of its own, personal names, emails and repository URLs
//! redacted against the given home directory.

use vstd::prelude::*;
use crate::evidence::{
    pair_views, registry_person_views, PackageOptionalEvidence, PackagePerson, PersonView,
    RegistryEvidence, RegistryEvidenceView, RegistryPerson,
};
use crate::extraction::OptionalEvidenceView;
use crate::json_sort::{entries_in_key_order, pairs_in_key_order};
use crate::redaction::{opt_view, redact_report_value, redacted};
use crate::text::{join, join_strings, string_views};

verus! {

/// A person as the report shows one: redacted name and email, either alone,
/// or `unknown` when neither is known.
pub open spec fn person_text(p: PersonView, home: Option<Seq<char>>) -> Seq<char> {
    match (p.name, p.email) {
        (Some(n), Some(e)) => redacted(n, home) + " <"@ + redacted(e, home) + ">"@,
        (Some(n), None) => redacted(n, home),
        (None, Some(e)) => redacted(e, home),
        (None, None) => "unknown"@,
    }
}

/// People, comma-separated.
pub open spec fn people_text(ps: Seq<PersonView>, home: Option<Seq<char>>) -> Seq<char> {
    join(ps.map_values(|p: PersonView| person_text(p, home)), ", "@)
}

/// The field names of name/value pairs as an ordered map holds them (each
/// once, in key order), comma-separated.
pub open spec fn keys_text(pairs: Seq<(Seq<char>, Seq<char>)>) -> Seq<char> {
    join(entries_in_key_order(pairs).map_values(|p: (Seq<char>, Seq<char>)| p.0), ", "@)
}

/// A labelled line for a present value, nothing otherwise.
pub open spec fn opt_line(label: Seq<char>, value: Option<Seq<char>>) -> Seq<char> {
    match value {
        Some(v) => label + v + "\n"@,
        None => Seq::empty(),
    }
}

/// A labelled line for a non-empty list, nothing otherwise.
pub open spec fn list_line(label: Seq<char>, nonempty: bool, text: Seq<char>) -> Seq<char> {
    if nonempty {
        label + text + "\n"@
    } else {
        Seq::empty()
    }
}

pub open spec fn redacted_opt(v: Option<Seq<char>>, home: Option<Seq<char>>) -> Option<Seq<char>> {
    match v {
        Some(x) => Some(redacted(x, home)),
        None => None,
    }
}

/// Lines for the optional registry metadata: publish time, maintainers,
/// publisher, repository, license and provenance fields, those present.
pub open spec fn registry_optional_text(r: RegistryEvidenceView, home: Option<Seq<char>>) -> Seq<char> {
    opt_line("Published: "@, r.publish_time) + list_line(
        "Maintainers: "@,
        r.maintainers.len() > 0,
        people_text(r.maintainers, home),
    ) + opt_line(
        "Publisher: "@,
        match r.publisher {
            Some(p) => Some(person_text(p, home)),
            None => None,
        },
    ) + opt_line("Repository: "@, redacted_opt(r.repository, home)) + opt_line("License: "@, r.license)
        + list_line("Provenance: "@, r.provenance.len() > 0, keys_text(r.provenance))
}

/// Lines for the optional package metadata: repository, license,
/// maintainers and provenance fields, those present.
pub open spec fn package_optional_text(e: OptionalEvidenceView, home: Option<Seq<char>>) -> Seq<char> {
    opt_line("Package repository: "@, redacted_opt(e.repository, home)) + opt_line("Package license: "@, e.license)
        + list_line("Package maintainers: "@, e.maintainers.len() > 0, people_text(e.maintainers, home))
        + list_line("Package provenance: "@, e.provenance.len() > 0, keys_text(e.provenance))
}

fn format_person(name: &Option<String>, email: &Option<String>, home: Option<&str>) -> (r: String)
    ensures
        r@ == person_text(PersonView { name: name.deep_view(), email: email.deep_view() }, opt_view(home)),
{
    match (name, email) {
        (Some(n), Some(e)) => {
            let mut out = redact_report_value(n.as_str(), home);
            out.append(" <");
            out.append(redact_report_value(e.as_str(), home).as_str());
            out.append(">");
            out
        },
        (Some(n), None) => redact_report_value(n.as_str(), home),
        (None, Some(e)) => redact_report_value(e.as_str(), home),
        (None, None) => "unknown".to_owned(),
    }
}

fn registry_people(ps: &Vec<RegistryPerson>, home: Option<&str>) -> (r: String)
    ensures
        r@ == people_text(registry_person_views(ps@), opt_view(home)),
{
    let ghost all = registry_person_views(ps@).map_values(|p: PersonView| person_text(p, opt_view(home)));
    let mut texts: Vec<String> = Vec::new();
    let mut i: usize = 0;
    while i < ps.len()
        invariant
            i <= ps@.len(),
            all == registry_person_views(ps@).map_values(|p: PersonView| person_text(p, opt_view(home))),
            string_views(texts@) == all.subrange(0, i as int),
        decreases ps@.len() - i,
    {
        let t = format_person(&ps[i].name, &ps[i].email, home);
        proof {
            assert(string_views(texts@.push(t)) =~= string_views(texts@).push(t@));
            assert(all.subrange(0, i + 1) =~= all.subrange(0, i as int).push(all[i as int]));
        }
        texts.push(t);
        i = i + 1;
    }
    assert(all.subrange(0, ps@.len() as int) == all);
    join_strings(&texts, ", ")
}

fn package_people(ps: &Vec<PackagePerson>, home: Option<&str>) -> (r: String)
    ensures
        r@ == people_text(ps@.map_values(|p: PackagePerson| p@), opt_view(home)),
{
    let ghost all = ps@.map_values(|p: PackagePerson| p@).map_values(|p: PersonView| person_text(p, opt_view(home)));
    let mut texts: Vec<String> = Vec::new();
    let mut i: usize = 0;
    while i < ps.len()
        invariant
            i <= ps@.len(),
            all == ps@.map_values(|p: PackagePerson| p@).map_values(|p: PersonView| person_text(p, opt_view(home))),
            string_views(texts@) == all.subrange(0, i as int),
        decreases ps@.len() - i,
    {
        let t = format_person(&ps[i].name, &ps[i].email, home);
        proof {
            assert(string_views(texts@.push(t)) =~= string_views(texts@).push(t@));
            assert(all.subrange(0, i + 1) =~= all.subrange(0, i as int).push(all[i as int]));
        }
        texts.push(t);
        i = i + 1;
    }
    assert(all.subrange(0, ps@.len() as int) == all);
    join_strings(&texts, ", ")
}

fn field_names(given: &Vec<(String, String)>) -> (r: String)
    ensures
        r@ == keys_text(pair_views(given@)),
{
    let pairs = pairs_in_key_order(given);
    let ghost all = pair_views(pairs@).map_values(|p: (Seq<char>, Seq<char>)| p.0);
    let mut names: Vec<String> = Vec::new();
    let mut i: usize = 0;
    while i < pairs.len()
        invariant
            i <= pairs@.len(),
            all == pair_views(pairs@).map_values(|p: (Seq<char>, Seq<char>)| p.0),
            string_views(names@) == all.subrange(0, i as int),
        decreases pairs@.len() - i,
    {
        let n = pairs[i].0.clone();
        proof {
            assert(string_views(names@.push(n)) =~= string_views(names@).push(n@));
            assert(all.subrange(0, i + 1) =~= all.subrange(0, i as int).push(all[i as int]));
        }
        names.push(n);
        i = i + 1;
    }
    assert(all.subrange(0, pairs@.len() as int) == all);
    join_strings(&names, ", ")
}

fn push_opt_line(out: &mut String, label: &str, value: &Option<String>)
    ensures
        final(out)@ == old(out)@ + opt_line(label@, value.deep_view()),
{
    match value {
        Some(v) => {
            out.append(label);
            out.append(v.as_str());
            out.append("\n");
            proof {
                reveal_strlit("\n");
            }
        },
        None => {
            assert(old(out)@ + Seq::<char>::empty() =~= old(out)@);
        },
    }
}

fn push_list_line(out: &mut String, label: &str, nonempty: bool, text: &String)
    ensures
        final(out)@ == old(out)@ + list_line(label@, nonempty, text@),
{
    if nonempty {
        out.append(label);
        out.append(text.as_str());
        out.append("\n");
        proof {
            reveal_strlit("\n");
        }
    } else {
        assert(old(out)@ + Seq::<char>::empty() =~= old(out)@);
    }
}

fn redact_opt(v: &Option<String>, home: Option<&str>) -> (r: Option<String>)
    ensures
        r.deep_view() == redacted_opt(v.deep_view(), opt_view(home)),
{
    match v {
        Some(x) => Some(redact_report_value(x.as_str(), home)),
        None => None,
    }
}

/// The optional registry metadata lines of a report.
pub fn render_registry_optional_evidence(registry: &RegistryEvidence, home: Option<&str>) -> (r: String)
    ensures
        r@ == registry_optional_text(registry@, opt_view(home)),
{
    let mut out = String::new();
    push_opt_line(&mut out, "Published: ", &registry.publish_time);
    let people = registry_people(&registry.maintainers, home);
    push_list_line(&mut out, "Maintainers: ", registry.maintainers.len() > 0, &people);
    let publisher = match &registry.publisher {
        Some(p) => Some(format_person(&p.name, &p.email, home)),
        None => None,
    };
    push_opt_line(&mut out, "Publisher: ", &publisher);
    push_opt_line(&mut out, "Repository: ", &redact_opt(&registry.repository, home));
    push_opt_line(&mut out, "License: ", &registry.license);
    let names = field_names(&registry.provenance);
    push_list_line(&mut out, "Provenance: ", registry.provenance.len() > 0, &names);
    assert(out@ =~= registry_optional_text(registry@, opt_view(home)));
    out
}

/// The optional package metadata lines of a report.
pub fn render_package_optional_evidence(evidence: &PackageOptionalEvidence, home: Option<&str>) -> (r: String)
    ensures
        r@ == package_optional_text(evidence@, opt_view(home)),
{
    let mut out = String::new();
    push_opt_line(&mut out, "Package repository: ", &redact_opt(&evidence.repository, home));
    push_opt_line(&mut out, "Package license: ", &evidence.license);
    let people = package_people(&evidence.maintainers, home);
    push_list_line(&mut out, "Package maintainers: ", evidence.maintainers.len() > 0, &people);
    let names = field_names(&evidence.provenance);
    push_list_line(&mut out, "Package provenance: ", evidence.provenance.len() > 0, &names);
    assert(out@ =~= package_optional_text(evidence@, opt_view(home)));
    out
}

} // verus!

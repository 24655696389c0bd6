use vstd::prelude::*;
use crate::config::ConfigModel;
use crate::config::ContentTemplate;
use crate::engine::dept_plan_ok;
use crate::engine::file_from_some_template;
use crate::engine::file_from_template;
use crate::engine::is_doc_id;
use crate::engine::plan_ok;
use crate::engine::spec_file_text;
use crate::engine::spec_tech;
use crate::engine::year_plan_ok;
use crate::engine::FilePlan;
use crate::engine::Plan;
use crate::text::lower_of;

verus! {

/// The file's path appends some template's lowercased title and the `.txt`
/// suffix to its directory's path.
pub open spec fn file_name_ok(f: FilePlan, dir: Seq<char>, texts: Seq<ContentTemplate>) -> bool {
    exists|t: int|
        0 <= t < texts.len() && f.path@ == dir + lower_of(#[trigger] texts[t].title@) + ".txt"@
}

/// The file's content is the rendered text of some template for the given
/// year, with a day in [1, 26], a month in [1, 12], and a nine-character
/// alphanumeric archive reference ID.
pub open spec fn file_metadata_ok(f: FilePlan, texts: Seq<ContentTemplate>, year: u16) -> bool {
    exists|t: int, day: nat, month: nat, doc_id: Seq<char>, manuell: bool|
        0 <= t < texts.len() && 1 <= day <= 26 && 1 <= month <= 12 && is_doc_id(doc_id)
            && f.content@ == #[trigger] spec_file_text(
            texts[t].title@,
            texts[t].content@,
            year,
            day,
            month,
            doc_id,
            manuell,
        )
}

/// A successful run plans exactly one year directory per config year and,
/// under each, exactly one leaf directory per config department, each leaf
/// holding between one and eight files.
pub proof fn lemma_leaf_counts(p: Plan, config: ConfigModel, root: Seq<char>)
    requires
        plan_ok(p, config, root),
    ensures
        p.years@.len() == config.years@.len(),
        forall|i: int|
            0 <= i < p.years@.len() ==> (#[trigger] p.years@[i]).depts@.len()
                == config.departments@.len(),
        forall|i: int, j: int|
            0 <= i < p.years@.len() && 0 <= j < config.departments@.len() ==> 1 <= (
            #[trigger] p.years@[i].depts@[j]).files@.len() <= 8,
{
    assert forall|i: int, j: int|
        0 <= i < p.years@.len() && 0 <= j < config.departments@.len() implies 1 <= (
    #[trigger] p.years@[i].depts@[j]).files@.len() <= 8 by {
        assert(year_plan_ok(
            p.years@[i],
            root,
            config.departments@,
            config.texts@,
            config.years@[i],
        ));
        assert(dept_plan_ok(
            p.years@[i].depts@[j],
            p.years@[i].path@,
            config.departments@[j]@,
            config.texts@,
            config.years@[i],
        ));
    }
}

/// Every planned file is named after its template: its path is its leaf
/// directory's path followed by the lowercased title and `.txt`.
pub proof fn lemma_file_names(p: Plan, config: ConfigModel, root: Seq<char>)
    requires
        plan_ok(p, config, root),
    ensures
        forall|i: int, j: int, k: int|
            0 <= i < p.years@.len() && 0 <= j < p.years@[i].depts@.len() && 0 <= k
                < p.years@[i].depts@[j].files@.len() ==> file_name_ok(
                #[trigger] p.years@[i].depts@[j].files@[k],
                p.years@[i].depts@[j].path@,
                config.texts@,
            ),
{
    assert forall|i: int, j: int, k: int|
        0 <= i < p.years@.len() && 0 <= j < p.years@[i].depts@.len() && 0 <= k
            < p.years@[i].depts@[j].files@.len() implies file_name_ok(
        #[trigger] p.years@[i].depts@[j].files@[k],
        p.years@[i].depts@[j].path@,
        config.texts@,
    ) by {
        assert(year_plan_ok(
            p.years@[i],
            root,
            config.departments@,
            config.texts@,
            config.years@[i],
        ));
        let d = p.years@[i].depts@[j];
        assert(dept_plan_ok(
            d,
            p.years@[i].path@,
            config.departments@[j]@,
            config.texts@,
            config.years@[i],
        ));
        assert(file_from_some_template(d.files@[k], d.path@, config.texts@, config.years@[i]));
        let t = choose|t: int|
            0 <= t < config.texts@.len() && #[trigger] file_from_template(
                d.files@[k],
                d.path@,
                config.texts@[t],
                config.years@[i],
            );
        assert(d.files@[k].path@ == d.path@ + lower_of(config.texts@[t].title@) + ".txt"@);
    }
}

/// Every planned file's content carries its enclosing year directory's year
/// in the creation date, a day in [1, 26], a month in [1, 12], and a
/// nine-character alphanumeric archive reference ID.
pub proof fn lemma_file_metadata(p: Plan, config: ConfigModel, root: Seq<char>)
    requires
        plan_ok(p, config, root),
    ensures
        forall|i: int, j: int, k: int|
            0 <= i < p.years@.len() && 0 <= j < p.years@[i].depts@.len() && 0 <= k
                < p.years@[i].depts@[j].files@.len() ==> file_metadata_ok(
                #[trigger] p.years@[i].depts@[j].files@[k],
                config.texts@,
                p.years@[i].year,
            ),
{
    assert forall|i: int, j: int, k: int|
        0 <= i < p.years@.len() && 0 <= j < p.years@[i].depts@.len() && 0 <= k
            < p.years@[i].depts@[j].files@.len() implies file_metadata_ok(
        #[trigger] p.years@[i].depts@[j].files@[k],
        config.texts@,
        p.years@[i].year,
    ) by {
        assert(year_plan_ok(
            p.years@[i],
            root,
            config.departments@,
            config.texts@,
            config.years@[i],
        ));
        let d = p.years@[i].depts@[j];
        assert(dept_plan_ok(
            d,
            p.years@[i].path@,
            config.departments@[j]@,
            config.texts@,
            config.years@[i],
        ));
        assert(file_from_some_template(d.files@[k], d.path@, config.texts@, config.years@[i]));
        let t = choose|t: int|
            0 <= t < config.texts@.len() && #[trigger] file_from_template(
                d.files@[k],
                d.path@,
                config.texts@[t],
                config.years@[i],
            );
        let f = d.files@[k];
        let (day, month, doc_id, manuell) = choose|day: nat, month: nat, doc_id: Seq<char>, manuell: bool|
            crate::engine::valid_file_meta(day, month, doc_id) && f.content@
                == #[trigger] spec_file_text(
                config.texts@[t].title@,
                config.texts@[t].content@,
                config.years@[i],
                day,
                month,
                doc_id,
                manuell,
            );
        assert(p.years@[i].year == config.years@[i]);
        assert(f.content@ == spec_file_text(
            config.texts@[t].title@,
            config.texts@[t].content@,
            p.years@[i].year,
            day,
            month,
            doc_id,
            manuell,
        ));
    }
}

/// The digitization technique line's value is one of exactly two words,
/// `manuell` or `digital`, whichever way the draw went.
pub proof fn lemma_technique_two_valued(manuell: bool)
    ensures
        spec_tech(manuell) == "manuell"@ || spec_tech(manuell) == "digital"@,
{
}

} // verus!

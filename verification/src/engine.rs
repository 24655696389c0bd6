use vstd::prelude::*;
use vstd::string::StringExecFns;
use crate::config::ConfigModel;
use crate::config::ContentTemplate;
use crate::rng::rand_alnum_char;
use crate::rng::rand_in_range;
use crate::rng::rand_ratio;
use crate::text::digits_of;
use crate::text::is_alnum_char;
use crate::text::lower_of;
use crate::text::lowercase;
use crate::text::num_to_string;
use crate::text::push_char;

verus! {

/// An archive reference ID: nine characters, all ASCII letters or digits.
pub open spec fn is_doc_id(s: Seq<char>) -> bool {
    s.len() == 9 && forall|i: int| 0 <= i < s.len() ==> is_alnum_char(#[trigger] s[i])
}

/// The digitization technique line's value: one of exactly two words.
pub open spec fn spec_tech(manuell: bool) -> Seq<char> {
    if manuell {
        "manuell"@
    } else {
        "digital"@
    }
}

/// Randomly drawn metadata within its documented bounds: a day of the month
/// in [1, 26], a month in [1, 12], and a nine-character alphanumeric ID.
pub open spec fn valid_file_meta(day: nat, month: nat, doc_id: Seq<char>) -> bool {
    &&& 1 <= day <= 26
    &&& 1 <= month <= 12
    &&& is_doc_id(doc_id)
}

/// The full text of one generated file: the metadata header, a dashed
/// separator, then the template's content verbatim.
pub open spec fn spec_file_text(
    title: Seq<char>,
    content: Seq<char>,
    year: u16,
    day: nat,
    month: nat,
    doc_id: Seq<char>,
    manuell: bool,
) -> Seq<char> {
    "Name: "@ + title + "\n"@ + "Autor: Ayn Rand\n"@ + "Erstellungsdatum: "@ + digits_of(day)
        + "."@ + digits_of(month) + "."@ + digits_of(year as nat) + "\n"@ + "Aktenzeichen: "@
        + doc_id + "\n"@ + "Digitalisierungstechnik: "@ + spec_tech(manuell) + "\n"@
        + "Digitalisierungsdatum: 2012\n"@ + "--------------------------\n"@ + content
}

/// Assembles the text of one file from the template fields, the year, and
/// already-drawn metadata.
pub fn render_file_text(
    title: &str,
    content: &str,
    year: u16,
    day: usize,
    month: usize,
    doc_id: &str,
    manuell: bool,
) -> (r: String)
    ensures
        r@ == spec_file_text(
            title@,
            content@,
            year,
            day as nat,
            month as nat,
            doc_id@,
            manuell,
        ),
{
    let mut s = String::new();
    s.append("Name: ");
    s.append(title);
    s.append("\n");
    s.append("Autor: Ayn Rand\n");
    s.append("Erstellungsdatum: ");
    let d = num_to_string(day);
    s.append(d.as_str());
    s.append(".");
    let m = num_to_string(month);
    s.append(m.as_str());
    s.append(".");
    let y = num_to_string(year as usize);
    s.append(y.as_str());
    s.append("\n");
    s.append("Aktenzeichen: ");
    s.append(doc_id);
    s.append("\n");
    s.append("Digitalisierungstechnik: ");
    if manuell {
        s.append("manuell");
    } else {
        s.append("digital");
    }
    s.append("\n");
    s.append("Digitalisierungsdatum: 2012\n");
    s.append("--------------------------\n");
    s.append(content);
    proof {
        assert(s@ =~= spec_file_text(
            title@,
            content@,
            year,
            day as nat,
            month as nat,
            doc_id@,
            manuell,
        ));
    }
    s
}

/// Draws a fresh archive reference ID: nine alphanumeric characters.
pub fn make_doc_id(rng: &mut rand::rngs::ThreadRng) -> (r: String)
    ensures
        is_doc_id(r@),
{
    let mut s = String::new();
    let mut i: usize = 0;
    while i < 9
        invariant
            i <= 9,
            s@.len() == i,
            forall|j: int| 0 <= j < i ==> is_alnum_char(#[trigger] s@[j]),
        decreases 9 - i,
    {
        let c = rand_alnum_char(rng);
        push_char(&mut s, c);
        i = i + 1;
    }
    s
}

/// One file to be written: its full path and its complete text.
pub struct FilePlan {
    pub path: String,
    pub content: String,
}

/// One leaf directory with the files that go into it.
pub struct DeptPlan {
    pub path: String,
    pub files: Vec<FilePlan>,
}

/// One year directory with its department subdirectories.
pub struct YearPlan {
    pub path: String,
    pub year: u16,
    pub depts: Vec<DeptPlan>,
}

/// Everything one run materializes, in creation order.
pub struct Plan {
    pub years: Vec<YearPlan>,
}

/// Why a run can be refused before anything is generated.
#[derive(Debug, PartialEq, Eq, Structural)]
pub enum GenError {
    /// The config offers no content template to draw files from.
    EmptyTemplateSet,
}

/// The file was generated from the given template into the given directory:
/// its path appends the lowercased title and the `.txt` suffix to the
/// directory, and its content is the rendered text for this year under some
/// metadata within bounds.
pub open spec fn file_from_template(
    f: FilePlan,
    dir: Seq<char>,
    t: ContentTemplate,
    year: u16,
) -> bool {
    &&& f.path@ == dir + lower_of(t.title@) + ".txt"@
    &&& exists|day: nat, month: nat, doc_id: Seq<char>, manuell: bool|
        valid_file_meta(day, month, doc_id) && f.content@ == #[trigger] spec_file_text(
            t.title@,
            t.content@,
            year,
            day,
            month,
            doc_id,
            manuell,
        )
}

/// The file was generated from one of the given templates.
pub open spec fn file_from_some_template(
    f: FilePlan,
    dir: Seq<char>,
    texts: Seq<ContentTemplate>,
    year: u16,
) -> bool {
    exists|i: int| 0 <= i < texts.len() && #[trigger] file_from_template(f, dir, texts[i], year)
}

/// The leaf directory sits under the year directory, is named after the
/// department, and holds one to eight files, each generated from one of the
/// config's templates.
pub open spec fn dept_plan_ok(
    d: DeptPlan,
    year_path: Seq<char>,
    dept: Seq<char>,
    texts: Seq<ContentTemplate>,
    year: u16,
) -> bool {
    &&& d.path@ == year_path + dept + "/"@
    &&& 1 <= d.files@.len() <= 8
    &&& forall|k: int|
        0 <= k < d.files@.len() ==> file_from_some_template(
            #[trigger] d.files@[k],
            d.path@,
            texts,
            year,
        )
}

/// The year directory is named after the year's decimal digits and holds one
/// leaf directory per department of the config, in order.
pub open spec fn year_plan_ok(
    y: YearPlan,
    root: Seq<char>,
    departments: Seq<String>,
    texts: Seq<ContentTemplate>,
    year: u16,
) -> bool {
    &&& y.year == year
    &&& y.path@ == root + "/"@ + digits_of(year as nat) + "/"@
    &&& y.depts@.len() == departments.len()
    &&& forall|j: int|
        0 <= j < departments.len() ==> dept_plan_ok(
            #[trigger] y.depts@[j],
            y.path@,
            departments[j]@,
            texts,
            year,
        )
}

/// The whole plan follows the config: one year directory per config year, in
/// order, each laid out as `year_plan_ok` says.
pub open spec fn plan_ok(p: Plan, config: ConfigModel, root: Seq<char>) -> bool {
    &&& p.years@.len() == config.years@.len()
    &&& forall|i: int|
        0 <= i < config.years@.len() ==> year_plan_ok(
            #[trigger] p.years@[i],
            root,
            config.departments@,
            config.texts@,
            config.years@[i],
        )
}

/// Builds the path of a year directory: `root/<year>/`.
pub fn year_dir_path(root: &str, year: u16) -> (r: String)
    ensures
        r@ == root@ + "/"@ + digits_of(year as nat) + "/"@,
{
    let mut s = root.to_owned();
    s.append("/");
    let y = num_to_string(year as usize);
    s.append(y.as_str());
    s.append("/");
    proof {
        assert(s@ =~= root@ + "/"@ + digits_of(year as nat) + "/"@);
    }
    s
}

/// Builds the path of a leaf directory: `<year_path><department>/`.
pub fn dept_dir_path(year_path: &str, dept: &str) -> (r: String)
    ensures
        r@ == year_path@ + dept@ + "/"@,
{
    let mut s = year_path.to_owned();
    s.append(dept);
    s.append("/");
    proof {
        assert(s@ =~= year_path@ + dept@ + "/"@);
    }
    s
}

/// Generates one file from the template into the given directory: draws the
/// creation date, the archive reference ID and the digitization technique,
/// and assembles path and content.
pub fn generate_file(
    template: &ContentTemplate,
    year: u16,
    rng: &mut rand::rngs::ThreadRng,
    dir: &str,
) -> (f: FilePlan)
    ensures
        file_from_template(f, dir@, *template, year),
{
    let day = rand_in_range(rng, 1, 27);
    let month = rand_in_range(rng, 1, 13);
    let doc_id = make_doc_id(rng);
    let manuell = rand_ratio(rng, 2, 5);

    let content = render_file_text(
        template.title.as_str(),
        template.content.as_str(),
        year,
        day,
        month,
        doc_id.as_str(),
        manuell,
    );

    let mut path = dir.to_owned();
    let lowered = lowercase(template.title.as_str());
    path.append(lowered.as_str());
    path.append(".txt");

    let f = FilePlan { path, content };
    proof {
        assert(f.path@ =~= dir@ + lower_of(template.title@) + ".txt"@);
        assert(valid_file_meta(day as nat, month as nat, doc_id@) && f.content@
            == spec_file_text(
            template.title@,
            template.content@,
            year,
            day as nat,
            month as nat,
            doc_id@,
            manuell,
        ));
    }
    f
}

/// Drives one whole run: plans the year and department directories in config
/// order and, for each leaf, one to eight files drawn from the templates
/// with replacement. Refuses a config without templates; otherwise the plan
/// follows the config exactly.
pub fn run(config: &ConfigModel, output_root: &str, rng: &mut rand::rngs::ThreadRng) -> (r: Result<
    Plan,
    GenError,
>)
    ensures
        r is Ok <==> config.texts@.len() > 0,
        r is Ok ==> plan_ok(r->Ok_0, *config, output_root@),
        r is Err ==> r->Err_0 == GenError::EmptyTemplateSet,
{
    if config.texts.len() == 0 {
        return Err(GenError::EmptyTemplateSet);
    }
    let mut years: Vec<YearPlan> = Vec::new();
    let mut yi: usize = 0;
    while yi < config.years.len()
        invariant
            yi <= config.years@.len(),
            years@.len() == yi,
            config.texts@.len() > 0,
            forall|i: int|
                0 <= i < yi ==> year_plan_ok(
                    #[trigger] years@[i],
                    output_root@,
                    config.departments@,
                    config.texts@,
                    config.years@[i],
                ),
        decreases config.years@.len() - yi,
    {
        let year = config.years[yi];
        let year_path = year_dir_path(output_root, year);
        let mut depts: Vec<DeptPlan> = Vec::new();
        let mut dj: usize = 0;
        while dj < config.departments.len()
            invariant
                dj <= config.departments@.len(),
                depts@.len() == dj,
                config.texts@.len() > 0,
                year_path@ == output_root@ + "/"@ + digits_of(year as nat) + "/"@,
                forall|j: int|
                    0 <= j < dj ==> dept_plan_ok(
                        #[trigger] depts@[j],
                        year_path@,
                        config.departments@[j]@,
                        config.texts@,
                        year,
                    ),
            decreases config.departments@.len() - dj,
        {
            let dept_path = dept_dir_path(year_path.as_str(), config.departments[dj].as_str());
            let count = rand_in_range(rng, 1, 9);
            let mut files: Vec<FilePlan> = Vec::new();
            let mut fk: usize = 0;
            while fk < count
                invariant
                    fk <= count,
                    count <= 8,
                    files@.len() == fk,
                    config.texts@.len() > 0,
                    forall|k: int|
                        0 <= k < fk ==> file_from_some_template(
                            #[trigger] files@[k],
                            dept_path@,
                            config.texts@,
                            year,
                        ),
                decreases count - fk,
            {
                let idx = rand_in_range(rng, 0, config.texts.len());
                let f = generate_file(&config.texts[idx], year, rng, dept_path.as_str());
                proof {
                    assert(file_from_template(f, dept_path@, config.texts@[idx as int], year));
                }
                files.push(f);
                fk = fk + 1;
            }
            let d = DeptPlan { path: dept_path, files };
            proof {
                assert(dept_plan_ok(
                    d,
                    year_path@,
                    config.departments@[dj as int]@,
                    config.texts@,
                    year,
                ));
            }
            depts.push(d);
            dj = dj + 1;
        }
        let y = YearPlan { path: year_path, year, depts };
        proof {
            assert(year_plan_ok(
                y,
                output_root@,
                config.departments@,
                config.texts@,
                config.years@[yi as int],
            ));
        }
        years.push(y);
        yi = yi + 1;
    }
    Ok(Plan { years })
}

} // verus!

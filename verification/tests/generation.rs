use datagen::{ConfigModel, ContentTemplate, GenError};

#[test]
fn scenario_single_template() {
    let config = ConfigModel {
        years: vec![2020],
        departments: vec!["hr".to_string()],
        authors: vec!["A".to_string()],
        texts: vec![ContentTemplate {
            title: "Report".to_string(),
            content: "Body.".to_string(),
        }],
    };
    let mut rng = rand::thread_rng();
    let plan = datagen::run(&config, "out", &mut rng).unwrap();

    assert_eq!(plan.years.len(), 1);
    let year = &plan.years[0];
    assert_eq!(year.path, "out/2020/");
    assert_eq!(year.year, 2020);
    assert_eq!(year.depts.len(), 1);
    let dept = &year.depts[0];
    assert_eq!(dept.path, "out/2020/hr/");
    assert!(1 <= dept.files.len() && dept.files.len() <= 8);
    for file in &dept.files {
        assert_eq!(file.path, "out/2020/hr/report.txt");
        let lines: Vec<&str> = file.content.split('\n').collect();
        assert_eq!(lines.len(), 8);
        assert_eq!(lines[0], "Name: Report");
        assert_eq!(lines[1], "Autor: Ayn Rand");
        let date = lines[2].strip_prefix("Erstellungsdatum: ").unwrap();
        let parts: Vec<&str> = date.split('.').collect();
        assert_eq!(parts.len(), 3);
        let day: u32 = parts[0].parse().unwrap();
        let month: u32 = parts[1].parse().unwrap();
        assert!(1 <= day && day <= 26);
        assert!(1 <= month && month <= 12);
        assert_eq!(parts[2], "2020");
        let id = lines[3].strip_prefix("Aktenzeichen: ").unwrap();
        assert_eq!(id.len(), 9);
        assert!(id.chars().all(|c| c.is_ascii_alphanumeric()));
        let tech = lines[4].strip_prefix("Digitalisierungstechnik: ").unwrap();
        assert!(tech == "manuell" || tech == "digital");
        assert_eq!(lines[5], "Digitalisierungsdatum: 2012");
        assert_eq!(lines[6], "--------------------------");
        assert!(lines[6].chars().all(|c| c == '-'));
        assert_eq!(lines[6].len(), 26);
        assert_eq!(lines[7], "Body.");
    }
}

#[test]
fn empty_template_set_is_refused() {
    let config = ConfigModel {
        years: vec![2020],
        departments: vec!["hr".to_string()],
        authors: vec![],
        texts: vec![],
    };
    let mut rng = rand::thread_rng();
    let result = datagen::run(&config, "out", &mut rng);
    assert!(matches!(result, Err(GenError::EmptyTemplateSet)));
}

#[test]
fn leaf_counts_match_config() {
    let config = ConfigModel {
        years: vec![2019, 2020],
        departments: vec!["hr".to_string(), "it".to_string(), "legal".to_string()],
        authors: vec![],
        texts: vec![ContentTemplate {
            title: "Memo".to_string(),
            content: "x".to_string(),
        }],
    };
    let mut rng = rand::thread_rng();
    let plan = datagen::run(&config, "root", &mut rng).unwrap();

    assert_eq!(plan.years.len(), 2);
    assert_eq!(plan.years[0].path, "root/2019/");
    assert_eq!(plan.years[1].path, "root/2020/");
    for year in &plan.years {
        assert_eq!(year.depts.len(), 3);
        for dept in &year.depts {
            assert!(1 <= dept.files.len() && dept.files.len() <= 8);
        }
    }
    assert_eq!(plan.years[0].depts[0].path, "root/2019/hr/");
    assert_eq!(plan.years[0].depts[1].path, "root/2019/it/");
    assert_eq!(plan.years[0].depts[2].path, "root/2019/legal/");
    assert_eq!(plan.years[1].depts[0].path, "root/2020/hr/");
}

#[test]
fn file_names_are_lowercased_titles() {
    let config = ConfigModel {
        years: vec![2021],
        departments: vec!["sales".to_string()],
        authors: vec![],
        texts: vec![
            ContentTemplate {
                title: "AlPhA".to_string(),
                content: "a".to_string(),
            },
            ContentTemplate {
                title: "BETA".to_string(),
                content: "b".to_string(),
            },
        ],
    };
    let mut rng = rand::thread_rng();
    let plan = datagen::run(&config, "o", &mut rng).unwrap();
    for file in &plan.years[0].depts[0].files {
        assert!(
            file.path == "o/2021/sales/alpha.txt" || file.path == "o/2021/sales/beta.txt",
            "unexpected path {}",
            file.path
        );
    }
}

#[test]
fn metadata_bounds_over_many_draws() {
    let template = ContentTemplate {
        title: "Note".to_string(),
        content: "C".to_string(),
    };
    let mut rng = rand::thread_rng();
    let mut seen_single_digit_day = false;
    let mut seen_double_digit_day = false;
    for _ in 0..2000 {
        let file = datagen::generate_file(&template, 7, &mut rng, "d/");
        assert_eq!(file.path, "d/note.txt");
        let lines: Vec<&str> = file.content.split('\n').collect();
        let date = lines[2].strip_prefix("Erstellungsdatum: ").unwrap();
        let parts: Vec<&str> = date.split('.').collect();
        let day: u32 = parts[0].parse().unwrap();
        let month: u32 = parts[1].parse().unwrap();
        assert!(1 <= day && day <= 26);
        assert!(1 <= month && month <= 12);
        assert_eq!(parts[2], "7");
        if day < 10 {
            seen_single_digit_day = true;
        } else {
            seen_double_digit_day = true;
        }
        let id = lines[3].strip_prefix("Aktenzeichen: ").unwrap();
        assert_eq!(id.len(), 9);
        assert!(id.chars().all(|c| c.is_ascii_alphanumeric()));
    }
    assert!(seen_single_digit_day);
    assert!(seen_double_digit_day);
}

#[test]
fn technique_frequency_near_forty_percent() {
    let template = ContentTemplate {
        title: "T".to_string(),
        content: "c".to_string(),
    };
    let mut rng = rand::thread_rng();
    let mut manuell_count: usize = 0;
    let draws: usize = 5000;
    for _ in 0..draws {
        let file = datagen::generate_file(&template, 2000, &mut rng, "d/");
        let lines: Vec<&str> = file.content.split('\n').collect();
        let tech = lines[4].strip_prefix("Digitalisierungstechnik: ").unwrap();
        assert!(tech == "manuell" || tech == "digital");
        if tech == "manuell" {
            manuell_count += 1;
        }
    }
    assert!(
        1700 <= manuell_count && manuell_count <= 2300,
        "manuell drawn {} times out of {}",
        manuell_count,
        draws
    );
}

#[test]
fn duplicate_years_are_planned_twice() {
    let config = ConfigModel {
        years: vec![2020, 2020],
        departments: vec!["hr".to_string()],
        authors: vec![],
        texts: vec![ContentTemplate {
            title: "Memo".to_string(),
            content: "x".to_string(),
        }],
    };
    let mut rng = rand::thread_rng();
    let plan = datagen::run(&config, "out", &mut rng).unwrap();
    assert_eq!(plan.years.len(), 2);
    assert_eq!(plan.years[0].path, "out/2020/");
    assert_eq!(plan.years[1].path, "out/2020/");
}

#[test]
fn no_departments_means_no_leaves() {
    let config = ConfigModel {
        years: vec![1999],
        departments: vec![],
        authors: vec![],
        texts: vec![ContentTemplate {
            title: "Memo".to_string(),
            content: "x".to_string(),
        }],
    };
    let mut rng = rand::thread_rng();
    let plan = datagen::run(&config, "out", &mut rng).unwrap();
    assert_eq!(plan.years.len(), 1);
    assert_eq!(plan.years[0].path, "out/1999/");
    assert!(plan.years[0].depts.is_empty());
}

#[test]
fn year_paths_at_numeric_extremes() {
    let config = ConfigModel {
        years: vec![0, 65535],
        departments: vec!["d".to_string()],
        authors: vec![],
        texts: vec![ContentTemplate {
            title: "Memo".to_string(),
            content: "x".to_string(),
        }],
    };
    let mut rng = rand::thread_rng();
    let plan = datagen::run(&config, "r", &mut rng).unwrap();
    assert_eq!(plan.years[0].path, "r/0/");
    assert_eq!(plan.years[1].path, "r/65535/");
    assert_eq!(plan.years[0].depts[0].path, "r/0/d/");
}

#[test]
fn content_is_appended_verbatim() {
    let template = ContentTemplate {
        title: "Multi".to_string(),
        content: "line one\nline two\n".to_string(),
    };
    let mut rng = rand::thread_rng();
    let file = datagen::generate_file(&template, 2010, &mut rng, "x/");
    let marker = "--------------------------\n";
    let idx = file.content.find(marker).unwrap();
    assert_eq!(&file.content[idx + marker.len()..], "line one\nline two\n");
    assert!(file.content.starts_with("Name: Multi\nAutor: Ayn Rand\n"));
}

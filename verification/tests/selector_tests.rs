use crowbar::aws::role::Role;
use crowbar::utils::{cause_report_lines, role_prompt_text, select_role, sort_strings, RoleSelection};

fn role(role_arn: &str) -> Role {
    Role {
        provider_arn: "arn:aws:iam::123456789012:saml-provider/okta-idp".to_string(),
        role_arn: role_arn.to_string(),
    }
}

#[test]
fn one_role_is_taken_without_a_prompt() {
    let roles = vec![role("arn:aws:iam::123456789012:role/only")];
    match select_role(&roles, &None) {
        RoleSelection::Chosen(chosen) => assert_eq!(roles[0], chosen),
        RoleSelection::NeedsPrompt { .. } => panic!("one role must not prompt"),
    }
}

#[test]
fn a_matching_preference_wins_without_a_prompt() {
    let roles = vec![
        role("arn:aws:iam::123456789012:role/a"),
        role("arn:aws:iam::123456789012:role/b"),
    ];
    let preferred = Some("arn:aws:iam::123456789012:role/b".to_string());
    match select_role(&roles, &preferred) {
        RoleSelection::Chosen(chosen) => {
            assert_eq!("arn:aws:iam::123456789012:role/b", chosen.role_arn)
        }
        RoleSelection::NeedsPrompt { .. } => panic!("a matching preference must not prompt"),
    }
}

#[test]
fn a_missing_preference_prompts_and_says_not_found() {
    let roles = vec![
        role("arn:aws:iam::123456789012:role/b"),
        role("arn:aws:iam::123456789012:role/a"),
    ];
    let preferred = Some("arn:aws:iam::123456789012:role/zz".to_string());
    match select_role(&roles, &preferred) {
        RoleSelection::NeedsPrompt {
            options,
            preferred_missing,
        } => {
            assert!(preferred_missing);
            assert_eq!(
                vec![
                    "arn:aws:iam::123456789012:role/a".to_string(),
                    "arn:aws:iam::123456789012:role/b".to_string(),
                ],
                options
            );
        }
        RoleSelection::Chosen(_) => panic!("a missing preference must prompt"),
    }
    assert_eq!(
        "Role arn:aws:iam::123456789012:role/zz not found; select the role to assume:",
        role_prompt_text(&preferred)
    );
}

#[test]
fn several_roles_without_a_preference_prompt_with_the_sorted_list() {
    let roles = vec![
        role("arn:aws:iam::123456789012:role/c"),
        role("arn:aws:iam::123456789012:role/a"),
        role("arn:aws:iam::123456789012:role/b"),
    ];
    match select_role(&roles, &None) {
        RoleSelection::NeedsPrompt {
            options,
            preferred_missing,
        } => {
            assert!(!preferred_missing);
            assert_eq!(
                vec![
                    "arn:aws:iam::123456789012:role/a".to_string(),
                    "arn:aws:iam::123456789012:role/b".to_string(),
                    "arn:aws:iam::123456789012:role/c".to_string(),
                ],
                options
            );
        }
        RoleSelection::Chosen(_) => panic!("several roles must prompt"),
    }
    assert_eq!("Select the role to assume:", role_prompt_text(&None));
}

#[test]
fn sorts_strings_lexicographically() {
    let sorted = sort_strings(vec![
        "pear".to_string(),
        "apple".to_string(),
        "plum".to_string(),
        "apple".to_string(),
    ]);
    assert_eq!(
        vec![
            "apple".to_string(),
            "apple".to_string(),
            "pear".to_string(),
            "plum".to_string(),
        ],
        sorted
    );
}

#[test]
fn cause_chains_are_reported_counted_down() {
    assert_eq!(
        Vec::<String>::new(),
        cause_report_lines(&Vec::<String>::new())
    );
    assert_eq!(
        vec!["only".to_string()],
        cause_report_lines(&vec!["only".to_string()])
    );
    assert_eq!(
        vec![
            "top".to_string(),
            "Caused by: ".to_string(),
            " 2: middle".to_string(),
            " 1: root".to_string(),
        ],
        cause_report_lines(&vec![
            "top".to_string(),
            "middle".to_string(),
            "root".to_string(),
        ])
    );
}

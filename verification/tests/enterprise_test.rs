use athenos::enterprise::{CompliancePolicy, EnterpriseAdminConsole, TeamMember};

fn member(id: &str) -> TeamMember {
    TeamMember {
        user_id: id.to_string(),
        name: "Name".to_string(),
        role: "Role".to_string(),
        joined_at: 1,
    }
}

fn policy(id: &str, enabled: bool) -> CompliancePolicy {
    CompliancePolicy {
        id: id.to_string(),
        name: "Policy".to_string(),
        description: "Description".to_string(),
        enabled,
        rules: vec!["rule".to_string()],
    }
}

#[test]
fn test_enterprise_console_creation() {
    let console = EnterpriseAdminConsole::new();
    assert_eq!(console.team_count(), 0);
}

#[test]
fn test_add_team_member() {
    let mut console = EnterpriseAdminConsole::new();
    let member = TeamMember {
        user_id: "user_001".to_string(),
        name: "John Doe".to_string(),
        role: "Developer".to_string(),
        joined_at: 1234567890,
    };

    console.add_team_member("team_alpha".to_string(), member);
    assert_eq!(console.get_team("team_alpha").unwrap().len(), 1);
}

#[test]
fn test_compliance_policy() {
    let mut console = EnterpriseAdminConsole::new();
    let policy = CompliancePolicy {
        id: "policy_001".to_string(),
        name: "Data Retention".to_string(),
        description: "Retain data for 90 days".to_string(),
        enabled: true,
        rules: vec!["90_day_retention".to_string()],
    };

    console.add_compliance_policy(policy);
    assert_eq!(console.policy_count(), 1);

    let report = console.get_compliance_report();
    assert_eq!(report.total_policies, 1);
    assert_eq!(report.enabled_policies, 1);
}

#[test]
fn test_teams_grow_member_by_member() {
    let mut console = EnterpriseAdminConsole::default();
    console.add_team_member("alpha".to_string(), member("a1"));
    console.add_team_member("beta".to_string(), member("b1"));
    console.add_team_member("alpha".to_string(), member("a2"));
    assert_eq!(console.team_count(), 2);
    let alpha: Vec<&str> =
        console.get_team("alpha").unwrap().iter().map(|m| m.user_id.as_str()).collect();
    assert_eq!(alpha, vec!["a1", "a2"]);
    assert!(console.get_team("gamma").is_none());
    let insights = console.get_team_insights("alpha");
    assert_eq!(insights.team_id, "alpha");
    assert_eq!(insights.total_members, 2);
    assert_eq!(insights.avg_productivity, 750_000);
    assert_eq!(insights.compliance_score, 950_000);
    let unknown = console.get_team_insights("gamma");
    assert_eq!(unknown.team_id, "gamma");
    assert_eq!(unknown.total_members, 0);
    assert_eq!(unknown.avg_productivity, 750_000);
}

#[test]
fn test_compliance_report_counts_switches() {
    let mut console = EnterpriseAdminConsole::new();
    let empty = console.get_compliance_report();
    assert_eq!(empty.total_policies, 0);
    assert_eq!(empty.enabled_policies, 0);
    assert_eq!(empty.compliance_score, 1_000_000);
    console.add_compliance_policy(policy("retention", true));
    console.add_compliance_policy(policy("access", false));
    console.add_compliance_policy(policy("audit", true));
    let report = console.get_compliance_report();
    assert_eq!(report.total_policies, 3);
    assert_eq!(report.enabled_policies, 2);
    assert_eq!(report.compliance_score, 666_666);
    console.set_policy_control("retention", false);
    assert!(!console.get_policy("retention").unwrap().enabled);
    assert_eq!(console.get_policy("retention").unwrap().rules, vec!["rule".to_string()]);
    assert_eq!(console.get_compliance_report().compliance_score, 333_333);
    console.set_policy_control("access", true);
    console.set_policy_control("retention", true);
    assert_eq!(console.get_compliance_report().compliance_score, 1_000_000);
    // a switch without a policy counts among the switches, not the policies
    console.set_policy_control("ghost", true);
    assert!(console.get_policy("ghost").is_none());
    let report = console.get_compliance_report();
    assert_eq!(report.total_policies, 3);
    assert_eq!(report.enabled_policies, 4);
    assert_eq!(report.compliance_score, 1_333_333);
    console.add_compliance_policy(policy("audit", false));
    assert_eq!(console.policy_count(), 3);
    assert_eq!(console.get_compliance_report().enabled_policies, 3);
}

//! What is promised of the state database.

use vstd::prelude::*;

use crate::causal_graph::{CausalGraphBackend, CausalGraphProjectionRecord};
use crate::db::{
    activity_statement, activity_statements, backend_label, contract_hash, heard_at,
    labelled_backend, lease_statement, lease_statements, profile_statement, profile_statements,
    projection_statement, record_of_row, remembered, resolved_model, row_fault, AgentProfile,
    AgentRuntimeState, Assignment, DbFaultModel, ProjectionRow, StatementModel, ValueModel,
    DELETE_LEASES,
};
use crate::outside::{json_document, json_pairs, moment_at, rfc3339_moment};
use crate::pairs::{law_merge_prefers_new, merged, value_of};
use crate::text::blank;

verus! {

/// A backend is found again under the name under which it is kept, and so is
/// the graph database under its older name.
pub proof fn law_backend_label_round_trip(backend: CausalGraphBackend)
    ensures
        labelled_backend(backend_label(backend)) == backend,
        labelled_backend("type_db3"@) == CausalGraphBackend::TypeDb3,
{
    reveal_strlit("typedb3");
    reveal_strlit("type_db3");
    reveal_strlit("disabled");
    assert("disabled"@[0] == 'd');
    assert("typedb3"@[0] == 't');
    assert("type_db3"@[0] == 't');
}

/// Whether a row holds the values of a statement that keeps a projection.
pub open spec fn row_holds(row: ProjectionRow, values: Seq<ValueModel>) -> bool {
    values == seq![
        ValueModel::Text(row.run_id@),
        ValueModel::Text(row.backend@),
        ValueModel::Text(row.status@),
        ValueModel::Text(row.database_name@),
        ValueModel::Text(row.schema_path@),
        ValueModel::Text(row.graph_json@),
        ValueModel::Integer(row.episode_count as int),
        ValueModel::Integer(row.event_count as int),
        ValueModel::Integer(row.link_count as int),
        ValueModel::Integer(row.hypothesis_count as int),
        ValueModel::Text(row.projected_at@),
    ]
}

/// Whether two records say the same.
pub open spec fn same_projection(
    a: CausalGraphProjectionRecord,
    b: CausalGraphProjectionRecord,
) -> bool {
    &&& a.run_id@ == b.run_id@
    &&& a.backend == b.backend
    &&& a.status@ == b.status@
    &&& a.database@ == b.database@
    &&& a.schema_path@ == b.schema_path@
    &&& a.graph_json@ == b.graph_json@
    &&& a.episode_count == b.episode_count
    &&& a.event_count == b.event_count
    &&& a.link_count == b.link_count
    &&& a.hypothesis_count == b.hypothesis_count
    &&& a.projected_at == b.projected_at
}

/// A projection that was kept is read back as it was, where its graph is read
/// back as itself, its moment is read back as it was written, and its counts fit
/// into the database.
pub proof fn law_projection_round_trip(
    record: CausalGraphProjectionRecord,
    row: ProjectionRow,
    read: CausalGraphProjectionRecord,
)
    requires
        projection_statement(record) is Ok,
        row_holds(row, projection_statement(record)->Ok_0.values),
        json_document(record.graph_json@) == Ok::<Seq<char>, Seq<char>>(record.graph_json@),
        rfc3339_moment(row.projected_at@) == moment_at(
            record.projected_at.seconds as int,
            record.projected_at.nanos as int,
        ),
        record.episode_count <= i64::MAX,
        record.event_count <= i64::MAX,
        record.link_count <= i64::MAX,
        record.hypothesis_count <= i64::MAX,
        record_of_row(
            read,
            row,
            json_document(row.graph_json@)->Ok_0,
            rfc3339_moment(row.projected_at@)->Ok_0,
        ),
    ensures
        row_fault(row) is None,
        same_projection(read, record),
{
    let values = projection_statement(record)->Ok_0.values;
    law_backend_label_round_trip(record.backend);
    assert(values[0] == ValueModel::Text(row.run_id@));
    assert(values[1] == ValueModel::Text(row.backend@));
    assert(values[2] == ValueModel::Text(row.status@));
    assert(values[3] == ValueModel::Text(row.database_name@));
    assert(values[4] == ValueModel::Text(row.schema_path@));
    assert(values[5] == ValueModel::Text(row.graph_json@));
    assert(values[6] == ValueModel::Integer(row.episode_count as int));
    assert(values[7] == ValueModel::Integer(row.event_count as int));
    assert(values[8] == ValueModel::Integer(row.link_count as int));
    assert(values[9] == ValueModel::Integer(row.hypothesis_count as int));
}

/// After an update, an agent remembers what is new under its keys, and what it
/// remembered before under every other.
pub proof fn law_memory_update_merges(
    payload: Seq<char>,
    known: Seq<(Seq<char>, Seq<char>)>,
    block_ids: Seq<(Seq<char>, Seq<char>)>,
    key: Seq<char>,
)
    requires
        json_pairs(payload) == Some(merged(known, block_ids)),
    ensures
        value_of(remembered(payload), key) == match value_of(block_ids, key) {
            Some(id) => Some(id),
            None => value_of(known, key),
        },
{
    law_merge_prefers_new(known, block_ids, key);
}

/// The leases that are there after a sync are those of the state: everything is
/// taken away first, and then each is added once, in order.
pub proof fn law_leases_are_replaced(active: Seq<Assignment>, updated_at: Seq<char>)
    ensures
        lease_statements(active, updated_at) matches Ok(statements) ==> {
            &&& statements.len() == active.len() + 1
            &&& statements[0] == (StatementModel { sql: DELETE_LEASES@, values: Seq::empty() })
            &&& forall|i: int|
                0 <= i < active.len() ==> lease_statement(#[trigger] active[i], updated_at)
                    == Ok::<StatementModel, DbFaultModel>(statements[i + 1])
        },
    decreases active.len(),
{
    if active.len() > 0 {
        let front = active.drop_last();
        law_leases_are_replaced(front, updated_at);
        if let Ok(statements) = lease_statements(active, updated_at) {
            let before = lease_statements(front, updated_at)->Ok_0;
            assert(statements == before.push(
                lease_statement(active.last(), updated_at)->Ok_0,
            ));
            assert forall|i: int| 0 <= i < active.len() implies lease_statement(
                #[trigger] active[i],
                updated_at,
            ) == Ok::<StatementModel, DbFaultModel>(statements[i + 1]) by {
                if i < front.len() {
                    assert(front[i] == active[i]);
                }
            }
        }
    }
}

/// The time at which an agent was heard of is known wherever the time is.
pub proof fn law_heard_at_is_known(heartbeat: Seq<char>, now: Seq<char>)
    requires
        !blank(now),
    ensures
        !blank(heard_at(heartbeat, now)),
{
}

/// The number of agents that have a role.
pub open spec fn with_role(runtimes: Seq<AgentRuntimeState>) -> nat
    decreases runtimes.len(),
{
    if runtimes.len() == 0 {
        0
    } else {
        with_role(runtimes.drop_last()) + if blank(runtimes.last().canonical_role@) {
            0nat
        } else {
            1nat
        }
    }
}

/// The activity of an agent is noted once where it has a role, and not where it
/// has none.
pub proof fn law_activity_is_noted_once(
    run_id: Seq<char>,
    runtimes: Seq<AgentRuntimeState>,
    now: Seq<char>,
)
    ensures
        activity_statements(run_id, runtimes, now).len() == with_role(runtimes),
    decreases runtimes.len(),
{
    if runtimes.len() > 0 {
        law_activity_is_noted_once(run_id, runtimes.drop_last(), now);
        assert(activity_statement(run_id, runtimes.last(), now) is None <==> blank(
            runtimes.last().canonical_role@,
        ));
    }
}

/// What a row about an agent holds besides the agent's name.
pub struct AgentColumns {
    pub agent_role: Seq<char>,
    pub llm_provider: Seq<char>,
    pub llm_model: Seq<char>,
    pub memory_block_ids: Seq<char>,
    pub last_stop_reason: Option<Seq<char>>,
    pub last_active_run: Option<Seq<char>>,
    pub behavior_contract_hash: Option<Seq<char>>,
    pub updated_at: Seq<char>,
}

/// The rows about agents, by the agent's name.
pub type AgentRows = Map<Seq<char>, AgentColumns>;

/// The rows about agents after `UPSERT_PROFILED_AGENT` with some values, as its
/// text reads: an agent that is not known yet is added with nothing remembered,
/// and one that is known gets what its profile says and keeps the rest.
pub open spec fn after_profile(rows: AgentRows, values: Seq<ValueModel>) -> AgentRows {
    let name = values[0]->Text_0;
    let known = rows.dom().contains(name);
    let filled_in = AgentColumns {
        agent_role: values[1]->Text_0,
        llm_provider: values[2]->Text_0,
        llm_model: values[3]->Text_0,
        memory_block_ids: if known {
            rows[name].memory_block_ids
        } else {
            "{}"@
        },
        last_stop_reason: if known {
            rows[name].last_stop_reason
        } else {
            None
        },
        last_active_run: if known {
            rows[name].last_active_run
        } else {
            None
        },
        behavior_contract_hash: values[4]->MaybeText_0,
        updated_at: values[5]->Text_0,
    };
    rows.insert(name, filled_in)
}

/// The rows about agents after the agents were filled in from their profiles.
pub open spec fn after_seeding(rows: AgentRows, statements: Seq<StatementModel>) -> AgentRows
    decreases statements.len(),
{
    if statements.len() == 0 {
        rows
    } else {
        after_profile(after_seeding(rows, statements.drop_last()), statements.last().values)
    }
}

/// Whether no later profile is for the same agent.
pub open spec fn last_of_its_name(profiles: Seq<AgentProfile>, i: int) -> bool {
    &&& 0 <= i < profiles.len()
    &&& forall|j: int|
        i < j < profiles.len() ==> (#[trigger] profiles[j]).name@ != profiles[i].name@
}

/// Filling the agents in again takes no row away and leaves what an agent
/// remembers, why it stopped and when it was last active as they were. Every
/// agent with a profile then has its row, with what its last profile says, and a
/// row without a profile stays as it was.
pub proof fn law_second_start_keeps_agents(
    rows: AgentRows,
    profiles: Seq<AgentProfile>,
    now: Seq<char>,
)
    ensures
        ({
            let after = after_seeding(rows, profile_statements(profiles, now));
            &&& forall|name: Seq<char>| #[trigger]
                rows.dom().contains(name) ==> {
                    &&& after.dom().contains(name)
                    &&& after[name].memory_block_ids == rows[name].memory_block_ids
                    &&& after[name].last_stop_reason == rows[name].last_stop_reason
                    &&& after[name].last_active_run == rows[name].last_active_run
                }
            &&& forall|i: int| #[trigger]
                last_of_its_name(profiles, i) ==> {
                    let profile = profiles[i];
                    &&& after.dom().contains(profile.name@)
                    &&& after[profile.name@].agent_role == profile.role@
                    &&& after[profile.name@].llm_provider == profile.provider_name@
                    &&& after[profile.name@].llm_model == resolved_model(profile)
                    &&& after[profile.name@].behavior_contract_hash == contract_hash(
                        profile.contract,
                    )
                    &&& after[profile.name@].updated_at == now
                }
            &&& forall|name: Seq<char>|
                (forall|i: int| 0 <= i < profiles.len() ==> (#[trigger] profiles[i]).name@ != name)
                    ==> {
                    &&& #[trigger] after.dom().contains(name) <==> rows.dom().contains(name)
                    &&& rows.dom().contains(name) ==> after[name] == rows[name]
                }
        }),
    decreases profiles.len(),
{
    let statements = profile_statements(profiles, now);
    if profiles.len() > 0 {
        let fewer = profiles.drop_last();
        let last = profiles.last();
        law_second_start_keeps_agents(rows, fewer, now);
        assert(statements.drop_last() =~= profile_statements(fewer, now));
        assert(statements.last() == profile_statement(last, now));
        let before = after_seeding(rows, profile_statements(fewer, now));
        let after = after_seeding(rows, statements);
        assert(after == after_profile(before, profile_statement(last, now).values));
        assert forall|i: int| #[trigger] last_of_its_name(profiles, i) implies {
            let profile = profiles[i];
            &&& after.dom().contains(profile.name@)
            &&& after[profile.name@].agent_role == profile.role@
            &&& after[profile.name@].llm_provider == profile.provider_name@
            &&& after[profile.name@].llm_model == resolved_model(profile)
            &&& after[profile.name@].behavior_contract_hash == contract_hash(profile.contract)
            &&& after[profile.name@].updated_at == now
        } by {
            if i < fewer.len() {
                assert(profiles[profiles.len() - 1].name@ != profiles[i].name@);
                assert forall|j: int| i < j < fewer.len() implies (#[trigger] fewer[j]).name@
                    != fewer[i].name@ by {
                    assert(profiles[j].name@ != profiles[i].name@);
                }
                assert(last_of_its_name(fewer, i));
            }
        }
        assert forall|name: Seq<char>|
            (forall|i: int| 0 <= i < profiles.len() ==> (#[trigger] profiles[i]).name@ != name)
                implies {
            &&& #[trigger] after.dom().contains(name) <==> rows.dom().contains(name)
            &&& rows.dom().contains(name) ==> after[name] == rows[name]
        } by {
            assert(profiles[profiles.len() - 1].name@ != name);
            assert forall|i: int| 0 <= i < fewer.len() implies (#[trigger] fewer[i]).name@
                != name by {
                assert(profiles[i].name@ != name);
            }
            assert(before.dom().contains(name) <==> rows.dom().contains(name));
        }
    }
}

} // verus!

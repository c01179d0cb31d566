//! What the statements of the state database write and ask for, column by column.

use vstd::prelude::*;

use crate::causal_graph::{CausalGraphBackend, CausalGraphProjectionRecord};
use crate::db::{
    activity_statement, contract_hash, lease_row, memory_row, policy_row, profile_statement,
    projection_values, runtime_statement, runtime_statements, AgentProfile, AgentRuntimeState,
    Assignment, CoordinationPolicyEvent, ValueModel, COUNT_PROJECTIONS,
    DELETE_LEASES, DELETE_RUNTIMES, INSERT_LEASE, INSERT_POLICY_EVENT, INSERT_RUNTIME,
    SELECT_AGENT, SELECT_AGENTS, SELECT_PROJECTION, SELECT_RECENT_PROJECTIONS,
    SELECT_SPEC_PROJECTIONS, UPDATE_STOP_REASON, UPSERT_ACTIVE_AGENT, UPSERT_MEMORY_BLOCKS,
    UPSERT_PROFILED_AGENT, UPSERT_PROJECTION,
};
use crate::numeral::decimal;
use crate::text::{optional_text, trimmed};

verus! {

// ---------------------------------------------------------------------------
// The texts of statements
// ---------------------------------------------------------------------------

/// The texts of a list from the one at `i` on, a comma between each two.
pub open spec fn listed(list: Seq<Seq<char>>, i: int) -> Seq<char>
    decreases list.len() - i,
{
    if i + 1 >= list.len() {
        list[i]
    } else {
        list[i] + ", "@ + listed(list, i + 1)
    }
}

/// What a statement gives a column: the value with a number, or what stands in
/// the text itself.
pub enum Cell {
    Place(nat),
    Fixed(Seq<char>),
}

/// How a cell is written.
pub open spec fn cell_text(cell: Cell) -> Seq<char> {
    match cell {
        Cell::Place(number) => "?"@ + decimal(number),
        Cell::Fixed(text) => text,
    }
}

/// The text that adds a row to a table.
pub open spec fn insertion(
    verb: Seq<char>,
    table: Seq<char>,
    row: Seq<(Seq<char>, Cell)>,
) -> Seq<char> {
    let columns = row.map_values(|entry: (Seq<char>, Cell)| entry.0);
    let cells = row.map_values(|entry: (Seq<char>, Cell)| cell_text(entry.1));
    verb + " "@ + table + " (\n    "@ + listed(columns, 0) + "\n)\nVALUES ("@ + listed(cells, 0)
        + ")"@
}

/// The columns from the one at `i` on that a row takes over from the row that
/// was to be added.
pub open spec fn taken_over(columns: Seq<Seq<char>>, i: int) -> Seq<char>
    decreases columns.len() - i,
{
    let one = columns[i] + " = excluded."@ + columns[i];
    if i + 1 >= columns.len() {
        one
    } else {
        one + ",\n    "@ + taken_over(columns, i + 1)
    }
}

/// The text that says what becomes of a row with the same key.
pub open spec fn conflict(key: Seq<char>, columns: Seq<Seq<char>>) -> Seq<char> {
    "\nON CONFLICT("@ + key + ") DO UPDATE SET\n    "@ + taken_over(columns, 0)
}

/// The text that asks for some columns of a table.
pub open spec fn selection(columns: Seq<Seq<char>>, table: Seq<char>) -> Seq<char> {
    "SELECT "@ + listed(columns, 0) + "\nFROM "@ + table
}

/// What each column gets. What stands in the text itself is given as it stands
/// there.
pub open spec fn columns_get(row: Seq<(Seq<char>, Cell)>, values: Seq<ValueModel>) -> Seq<
    (Seq<char>, ValueModel),
> {
    row.map_values(
        |entry: (Seq<char>, Cell)|
            (
                entry.0,
                match entry.1 {
                    Cell::Place(number) => values[number - 1],
                    Cell::Fixed(text) => ValueModel::Text(text),
                },
            ),
    )
}

proof fn lemma_places()
    ensures
        decimal(1) == seq!['1'],
        decimal(2) == seq!['2'],
        decimal(3) == seq!['3'],
        decimal(4) == seq!['4'],
        decimal(5) == seq!['5'],
        decimal(6) == seq!['6'],
        decimal(7) == seq!['7'],
        decimal(8) == seq!['8'],
        decimal(9) == seq!['9'],
        decimal(10) == seq!['1', '0'],
        decimal(11) == seq!['1', '1'],
        decimal(12) == seq!['1', '2'],
        decimal(13) == seq!['1', '3'],
{
    reveal_with_fuel(decimal, 3);
    assert(decimal(10) =~= seq!['1', '0']);
    assert(decimal(11) =~= seq!['1', '1']);
    assert(decimal(12) =~= seq!['1', '2']);
    assert(decimal(13) =~= seq!['1', '3']);
}

// ---------------------------------------------------------------------------
// Leases
// ---------------------------------------------------------------------------

proof fn lemma_insert_lease_text()
    ensures
        INSERT_LEASE@ == insertion(
            "INSERT INTO"@,
            "coordination_leases"@,
            seq![
                ("agent"@, Cell::Place(1)),
                ("task"@, Cell::Place(2)),
                ("files_json"@, Cell::Place(3)),
                ("claimed_at"@, Cell::Place(4)),
                ("last_heartbeat_at"@, Cell::Place(5)),
                ("status"@, Cell::Place(6)),
                ("resource_kind"@, Cell::Place(7)),
                ("ttl_secs"@, Cell::Place(8)),
                ("guardrails_json"@, Cell::Place(9)),
                ("expires_at"@, Cell::Place(10)),
                ("updated_at"@, Cell::Place(11)),
            ],
        ),
{
    reveal_strlit(
        "INSERT INTO coordination_leases (\n    agent, task, files_json, claimed_at, last_heartbeat_at, status, resource_kind, ttl_secs, guardrails_json, expires_at, updated_at\n)\nVALUES (?1, ?2, ?3, ?4, ?5, ?6, ?7, ?8, ?9, ?10, ?11)",
    );
    reveal_strlit("INSERT INTO");
    reveal_strlit("coordination_leases");
    reveal_strlit(" ");
    reveal_strlit(" (\n    ");
    reveal_strlit("\n)\nVALUES (");
    reveal_strlit(")");
    reveal_strlit("?");
    reveal_strlit(", ");
    reveal_strlit("agent");
    reveal_strlit("task");
    reveal_strlit("files_json");
    reveal_strlit("claimed_at");
    reveal_strlit("last_heartbeat_at");
    reveal_strlit("status");
    reveal_strlit("resource_kind");
    reveal_strlit("ttl_secs");
    reveal_strlit("guardrails_json");
    reveal_strlit("expires_at");
    reveal_strlit("updated_at");
    lemma_places();
    reveal_with_fuel(listed, 12);
    let row = seq![
        ("agent"@, Cell::Place(1)),
        ("task"@, Cell::Place(2)),
        ("files_json"@, Cell::Place(3)),
        ("claimed_at"@, Cell::Place(4)),
        ("last_heartbeat_at"@, Cell::Place(5)),
        ("status"@, Cell::Place(6)),
        ("resource_kind"@, Cell::Place(7)),
        ("ttl_secs"@, Cell::Place(8)),
        ("guardrails_json"@, Cell::Place(9)),
        ("expires_at"@, Cell::Place(10)),
        ("updated_at"@, Cell::Place(11)),
    ];
    let columns = row.map_values(|entry: (Seq<char>, Cell)| entry.0);
    let cells = row.map_values(|entry: (Seq<char>, Cell)| cell_text(entry.1));
    let all = INSERT_LEASE@;
    assert(all.subrange(38, 166) =~= listed(columns, 0));
    assert(all.subrange(177, 221) =~= listed(cells, 0));
    assert(all.subrange(0, 222) =~= insertion("INSERT INTO"@, "coordination_leases"@, row));
    assert(all =~= all.subrange(0, 222));
}

/// A lease is kept as a row in which each column holds what its name says.
pub proof fn law_lease_row(
    assignment: Assignment,
    files: Seq<char>,
    guardrails: Seq<char>,
    updated_at: Seq<char>,
)
    ensures
        ({
            let statement = lease_row(assignment, files, guardrails, updated_at);
            let row = seq![
                ("agent"@, Cell::Place(1)),
                ("task"@, Cell::Place(2)),
                ("files_json"@, Cell::Place(3)),
                ("claimed_at"@, Cell::Place(4)),
                ("last_heartbeat_at"@, Cell::Place(5)),
                ("status"@, Cell::Place(6)),
                ("resource_kind"@, Cell::Place(7)),
                ("ttl_secs"@, Cell::Place(8)),
                ("guardrails_json"@, Cell::Place(9)),
                ("expires_at"@, Cell::Place(10)),
                ("updated_at"@, Cell::Place(11)),
            ];
            &&& statement.sql == insertion("INSERT INTO"@, "coordination_leases"@, row)
            &&& statement.values.len() == 11
            &&& columns_get(row, statement.values) == seq![
                ("agent"@, ValueModel::Text(assignment.agent@)),
                ("task"@, ValueModel::Text(assignment.task@)),
                ("files_json"@, ValueModel::Text(files)),
                ("claimed_at"@, ValueModel::Text(assignment.claimed_at@)),
                ("last_heartbeat_at"@, ValueModel::Text(assignment.last_heartbeat_at@)),
                ("status"@, ValueModel::Text(assignment.status@)),
                ("resource_kind"@, ValueModel::Text(assignment.resource_kind@)),
                ("ttl_secs"@, ValueModel::Integer(assignment.ttl_secs as int)),
                ("guardrails_json"@, ValueModel::Text(guardrails)),
                ("expires_at"@, ValueModel::Text(assignment.expires_at@)),
                ("updated_at"@, ValueModel::Text(updated_at)),
            ]
        }),
{
    lemma_insert_lease_text();
    let statement = lease_row(assignment, files, guardrails, updated_at);
    let row = seq![
        ("agent"@, Cell::Place(1)),
        ("task"@, Cell::Place(2)),
        ("files_json"@, Cell::Place(3)),
        ("claimed_at"@, Cell::Place(4)),
        ("last_heartbeat_at"@, Cell::Place(5)),
        ("status"@, Cell::Place(6)),
        ("resource_kind"@, Cell::Place(7)),
        ("ttl_secs"@, Cell::Place(8)),
        ("guardrails_json"@, Cell::Place(9)),
        ("expires_at"@, Cell::Place(10)),
        ("updated_at"@, Cell::Place(11)),
    ];
    assert(columns_get(row, statement.values) =~= seq![
        ("agent"@, ValueModel::Text(assignment.agent@)),
        ("task"@, ValueModel::Text(assignment.task@)),
        ("files_json"@, ValueModel::Text(files)),
        ("claimed_at"@, ValueModel::Text(assignment.claimed_at@)),
        ("last_heartbeat_at"@, ValueModel::Text(assignment.last_heartbeat_at@)),
        ("status"@, ValueModel::Text(assignment.status@)),
        ("resource_kind"@, ValueModel::Text(assignment.resource_kind@)),
        ("ttl_secs"@, ValueModel::Integer(assignment.ttl_secs as int)),
        ("guardrails_json"@, ValueModel::Text(guardrails)),
        ("expires_at"@, ValueModel::Text(assignment.expires_at@)),
        ("updated_at"@, ValueModel::Text(updated_at)),
    ]);
}

// ---------------------------------------------------------------------------
// The state of agents
// ---------------------------------------------------------------------------

proof fn lemma_upsert_profiled_agent_text()
    ensures
        UPSERT_PROFILED_AGENT@ == insertion(
            "INSERT INTO"@,
            "agent_state"@,
            seq![
                ("agent_name"@, Cell::Place(1)),
                ("agent_role"@, Cell::Place(2)),
                ("llm_provider"@, Cell::Place(3)),
                ("llm_model"@, Cell::Place(4)),
                ("memory_block_ids"@, Cell::Fixed("'{}'"@)),
                ("behavior_contract_hash"@, Cell::Place(5)),
                ("updated_at"@, Cell::Place(6)),
            ],
        ) + conflict(
            "agent_name"@,
            seq![
                "agent_role"@,
                "llm_provider"@,
                "llm_model"@,
                "behavior_contract_hash"@,
                "updated_at"@,
            ],
        ),
{
    reveal_strlit(
        "INSERT INTO agent_state (\n    agent_name, agent_role, llm_provider, llm_model, memory_block_ids, behavior_contract_hash, updated_at\n)\nVALUES (?1, ?2, ?3, ?4, '{}', ?5, ?6)\nON CONFLICT(agent_name) DO UPDATE SET\n    agent_role = excluded.agent_role,\n    llm_provider = excluded.llm_provider,\n    llm_model = excluded.llm_model,\n    behavior_contract_hash = excluded.behavior_contract_hash,\n    updated_at = excluded.updated_at",
    );
    reveal_strlit("INSERT INTO");
    reveal_strlit("agent_state");
    reveal_strlit(" ");
    reveal_strlit(" (\n    ");
    reveal_strlit("\n)\nVALUES (");
    reveal_strlit(")");
    reveal_strlit("?");
    reveal_strlit(", ");
    reveal_strlit("agent_name");
    reveal_strlit("agent_role");
    reveal_strlit("llm_provider");
    reveal_strlit("llm_model");
    reveal_strlit("memory_block_ids");
    reveal_strlit("behavior_contract_hash");
    reveal_strlit("updated_at");
    reveal_strlit("'{}'");
    reveal_strlit("\nON CONFLICT(");
    reveal_strlit(") DO UPDATE SET\n    ");
    reveal_strlit(" = excluded.");
    reveal_strlit(",\n    ");
    lemma_places();
    reveal_with_fuel(listed, 8);
    reveal_with_fuel(taken_over, 6);
    let row = seq![
        ("agent_name"@, Cell::Place(1)),
        ("agent_role"@, Cell::Place(2)),
        ("llm_provider"@, Cell::Place(3)),
        ("llm_model"@, Cell::Place(4)),
        ("memory_block_ids"@, Cell::Fixed("'{}'"@)),
        ("behavior_contract_hash"@, Cell::Place(5)),
        ("updated_at"@, Cell::Place(6)),
    ];
    let columns = row.map_values(|entry: (Seq<char>, Cell)| entry.0);
    let cells = row.map_values(|entry: (Seq<char>, Cell)| cell_text(entry.1));
    let all = UPSERT_PROFILED_AGENT@;
    assert(all.subrange(30, 131) =~= listed(columns, 0));
    assert(all.subrange(142, 170) =~= listed(cells, 0));
    assert(all.subrange(0, 171) =~= insertion("INSERT INTO"@, "agent_state"@, row));
    assert(all.subrange(171, 424) =~= conflict(
        "agent_name"@,
        seq![
            "agent_role"@,
            "llm_provider"@,
            "llm_model"@,
            "behavior_contract_hash"@,
            "updated_at"@,
        ],
    ));
    assert(all =~= all.subrange(0, 171) + all.subrange(171, 424));
}

/// An agent is filled in with its name, the role, provider and model of its profile
/// and what its contract is known by. The model is the one that the profile chooses,
/// else that of its provider, else unresolved. A row that is there keeps what the
/// agent remembers, why it stopped and when it was last active.
pub proof fn law_profile_row(profile: AgentProfile, now: Seq<char>)
    ensures
        ({
            let statement = profile_statement(profile, now);
            let row = seq![
                ("agent_name"@, Cell::Place(1)),
                ("agent_role"@, Cell::Place(2)),
                ("llm_provider"@, Cell::Place(3)),
                ("llm_model"@, Cell::Place(4)),
                ("memory_block_ids"@, Cell::Fixed("'{}'"@)),
                ("behavior_contract_hash"@, Cell::Place(5)),
                ("updated_at"@, Cell::Place(6)),
            ];
            &&& statement.sql == insertion("INSERT INTO"@, "agent_state"@, row) + conflict(
                    "agent_name"@,
                    seq![
                        "agent_role"@,
                        "llm_provider"@,
                        "llm_model"@,
                        "behavior_contract_hash"@,
                        "updated_at"@,
                    ],
                )
            &&& statement.values.len() == 6
            &&& columns_get(row, statement.values) == seq![
                ("agent_name"@, ValueModel::Text(profile.name@)),
                ("agent_role"@, ValueModel::Text(profile.role@)),
                ("llm_provider"@, ValueModel::Text(profile.provider_name@)),
                ("llm_model"@, ValueModel::Text(match profile.model_override {
                    Some(model) => model@,
                    None => match profile.provider_model {
                        Some(model) => model@,
                        None => "unresolved"@,
                    },
                })),
                ("memory_block_ids"@, ValueModel::Text("'{}'"@)),
                ("behavior_contract_hash"@, ValueModel::MaybeText(contract_hash(profile.contract))),
                ("updated_at"@, ValueModel::Text(now)),
            ]
        }),
{
    lemma_upsert_profiled_agent_text();
    let statement = profile_statement(profile, now);
    let row = seq![
        ("agent_name"@, Cell::Place(1)),
        ("agent_role"@, Cell::Place(2)),
        ("llm_provider"@, Cell::Place(3)),
        ("llm_model"@, Cell::Place(4)),
        ("memory_block_ids"@, Cell::Fixed("'{}'"@)),
        ("behavior_contract_hash"@, Cell::Place(5)),
        ("updated_at"@, Cell::Place(6)),
    ];
    assert(columns_get(row, statement.values) =~= seq![
        ("agent_name"@, ValueModel::Text(profile.name@)),
        ("agent_role"@, ValueModel::Text(profile.role@)),
        ("llm_provider"@, ValueModel::Text(profile.provider_name@)),
        ("llm_model"@, ValueModel::Text(match profile.model_override {
                    Some(model) => model@,
                    None => match profile.provider_model {
                        Some(model) => model@,
                        None => "unresolved"@,
                    },
                })),
        ("memory_block_ids"@, ValueModel::Text("'{}'"@)),
        ("behavior_contract_hash"@, ValueModel::MaybeText(contract_hash(profile.contract))),
        ("updated_at"@, ValueModel::Text(now)),
    ]);
}

proof fn lemma_upsert_active_agent_text()
    ensures
        UPSERT_ACTIVE_AGENT@ == insertion(
            "INSERT INTO"@,
            "agent_state"@,
            seq![
                ("agent_name"@, Cell::Place(1)),
                ("agent_role"@, Cell::Place(2)),
                ("llm_provider"@, Cell::Place(3)),
                ("llm_model"@, Cell::Fixed("''"@)),
                ("memory_block_ids"@, Cell::Fixed("'{}'"@)),
                ("last_active_run"@, Cell::Place(4)),
                ("updated_at"@, Cell::Place(5)),
            ],
        ) + "\nON CONFLICT(agent_name) DO UPDATE SET\n    llm_provider = CASE\n        WHEN excluded.llm_provider = 'unknown' THEN agent_state.llm_provider\n        ELSE excluded.llm_provider\n    END,\n    last_active_run = excluded.last_active_run,\n    updated_at = excluded.updated_at"@,
{
    reveal_strlit(
        "INSERT INTO agent_state (\n    agent_name, agent_role, llm_provider, llm_model, memory_block_ids, last_active_run, updated_at\n)\nVALUES (?1, ?2, ?3, '', '{}', ?4, ?5)\nON CONFLICT(agent_name) DO UPDATE SET\n    llm_provider = CASE\n        WHEN excluded.llm_provider = 'unknown' THEN agent_state.llm_provider\n        ELSE excluded.llm_provider\n    END,\n    last_active_run = excluded.last_active_run,\n    updated_at = excluded.updated_at",
    );
    reveal_strlit("INSERT INTO");
    reveal_strlit("agent_state");
    reveal_strlit(" ");
    reveal_strlit(" (\n    ");
    reveal_strlit("\n)\nVALUES (");
    reveal_strlit(")");
    reveal_strlit("?");
    reveal_strlit(", ");
    reveal_strlit("agent_name");
    reveal_strlit("agent_role");
    reveal_strlit("llm_provider");
    reveal_strlit("llm_model");
    reveal_strlit("memory_block_ids");
    reveal_strlit("last_active_run");
    reveal_strlit("updated_at");
    reveal_strlit("''");
    reveal_strlit("'{}'");
    reveal_strlit(
        "\nON CONFLICT(agent_name) DO UPDATE SET\n    llm_provider = CASE\n        WHEN excluded.llm_provider = 'unknown' THEN agent_state.llm_provider\n        ELSE excluded.llm_provider\n    END,\n    last_active_run = excluded.last_active_run,\n    updated_at = excluded.updated_at",
    );
    lemma_places();
    reveal_with_fuel(listed, 8);
    let row = seq![
        ("agent_name"@, Cell::Place(1)),
        ("agent_role"@, Cell::Place(2)),
        ("llm_provider"@, Cell::Place(3)),
        ("llm_model"@, Cell::Fixed("''"@)),
        ("memory_block_ids"@, Cell::Fixed("'{}'"@)),
        ("last_active_run"@, Cell::Place(4)),
        ("updated_at"@, Cell::Place(5)),
    ];
    let columns = row.map_values(|entry: (Seq<char>, Cell)| entry.0);
    let cells = row.map_values(|entry: (Seq<char>, Cell)| cell_text(entry.1));
    let all = UPSERT_ACTIVE_AGENT@;
    assert(all.subrange(30, 124) =~= listed(columns, 0));
    assert(all.subrange(135, 163) =~= listed(cells, 0));
    assert(all.subrange(0, 164) =~= insertion("INSERT INTO"@, "agent_state"@, row));
    assert(all.subrange(164, 432) =~= "\nON CONFLICT(agent_name) DO UPDATE SET\n    llm_provider = CASE\n        WHEN excluded.llm_provider = 'unknown' THEN agent_state.llm_provider\n        ELSE excluded.llm_provider\n    END,\n    last_active_run = excluded.last_active_run,\n    updated_at = excluded.updated_at"@);
    assert(all =~= all.subrange(0, 164) + all.subrange(164, 432));
}

/// The activity of an agent is noted under its role without the white space around
/// it, with its provider, where that is known, the run and when it was heard of.
/// An agent without a role is not noted.
pub proof fn law_activity_row(run_id: Seq<char>, runtime: AgentRuntimeState, now: Seq<char>)
    ensures
        activity_statement(run_id, runtime, now) is None <==> trimmed(
            runtime.canonical_role@,
        ).len() == 0,
        activity_statement(run_id, runtime, now) matches Some(statement) ==> ({
            let row = seq![
                ("agent_name"@, Cell::Place(1)),
                ("agent_role"@, Cell::Place(2)),
                ("llm_provider"@, Cell::Place(3)),
                ("llm_model"@, Cell::Fixed("''"@)),
                ("memory_block_ids"@, Cell::Fixed("'{}'"@)),
                ("last_active_run"@, Cell::Place(4)),
                ("updated_at"@, Cell::Place(5)),
            ];
            &&& statement.sql == insertion("INSERT INTO"@, "agent_state"@, row)
                + "\nON CONFLICT(agent_name) DO UPDATE SET\n    llm_provider = CASE\n        WHEN excluded.llm_provider = 'unknown' THEN agent_state.llm_provider\n        ELSE excluded.llm_provider\n    END,\n    last_active_run = excluded.last_active_run,\n    updated_at = excluded.updated_at"@
            &&& statement.values.len() == 5
            &&& columns_get(row, statement.values) == seq![
                ("agent_name"@, ValueModel::Text(trimmed(runtime.canonical_role@))),
                ("agent_role"@, ValueModel::Text(trimmed(runtime.canonical_role@))),
                ("llm_provider"@, ValueModel::Text(if runtime.provider is Some && trimmed(
                    runtime.provider->Some_0@,
                ).len() > 0 {
                    runtime.provider->Some_0@
                } else {
                    "unknown"@
                })),
                ("llm_model"@, ValueModel::Text("''"@)),
                ("memory_block_ids"@, ValueModel::Text("'{}'"@)),
                ("last_active_run"@, ValueModel::Text(run_id)),
                ("updated_at"@, ValueModel::Text(if trimmed(runtime.last_heartbeat_at@).len() == 0 {
                    now
                } else {
                    runtime.last_heartbeat_at@
                })),
            ]
        }),
{
    lemma_upsert_active_agent_text();
    if let Some(statement) = activity_statement(run_id, runtime, now) {
        let row = seq![
            ("agent_name"@, Cell::Place(1)),
            ("agent_role"@, Cell::Place(2)),
            ("llm_provider"@, Cell::Place(3)),
            ("llm_model"@, Cell::Fixed("''"@)),
            ("memory_block_ids"@, Cell::Fixed("'{}'"@)),
            ("last_active_run"@, Cell::Place(4)),
            ("updated_at"@, Cell::Place(5)),
        ];
        assert(columns_get(row, statement.values) =~= seq![
            ("agent_name"@, ValueModel::Text(trimmed(runtime.canonical_role@))),
            ("agent_role"@, ValueModel::Text(trimmed(runtime.canonical_role@))),
            ("llm_provider"@, ValueModel::Text(if runtime.provider is Some && trimmed(
                    runtime.provider->Some_0@,
                ).len() > 0 {
                    runtime.provider->Some_0@
                } else {
                    "unknown"@
                })),
            ("llm_model"@, ValueModel::Text("''"@)),
            ("memory_block_ids"@, ValueModel::Text("'{}'"@)),
            ("last_active_run"@, ValueModel::Text(run_id)),
            ("updated_at"@, ValueModel::Text(if trimmed(runtime.last_heartbeat_at@).len() == 0 {
                    now
                } else {
                    runtime.last_heartbeat_at@
                })),
        ]);
    }
}

proof fn lemma_upsert_memory_blocks_text()
    ensures
        UPSERT_MEMORY_BLOCKS@ == insertion(
            "INSERT INTO"@,
            "agent_state"@,
            seq![
                ("agent_name"@, Cell::Place(1)),
                ("agent_role"@, Cell::Place(1)),
                ("llm_provider"@, Cell::Fixed("'unknown'"@)),
                ("llm_model"@, Cell::Fixed("'unknown'"@)),
                ("memory_block_ids"@, Cell::Place(2)),
                ("updated_at"@, Cell::Place(3)),
            ],
        ) + conflict(
            "agent_name"@,
            seq!["memory_block_ids"@, "updated_at"@],
        ),
{
    reveal_strlit(
        "INSERT INTO agent_state (\n    agent_name, agent_role, llm_provider, llm_model, memory_block_ids, updated_at\n)\nVALUES (?1, ?1, 'unknown', 'unknown', ?2, ?3)\nON CONFLICT(agent_name) DO UPDATE SET\n    memory_block_ids = excluded.memory_block_ids,\n    updated_at = excluded.updated_at",
    );
    reveal_strlit("INSERT INTO");
    reveal_strlit("agent_state");
    reveal_strlit(" ");
    reveal_strlit(" (\n    ");
    reveal_strlit("\n)\nVALUES (");
    reveal_strlit(")");
    reveal_strlit("?");
    reveal_strlit(", ");
    reveal_strlit("agent_name");
    reveal_strlit("agent_role");
    reveal_strlit("llm_provider");
    reveal_strlit("llm_model");
    reveal_strlit("memory_block_ids");
    reveal_strlit("updated_at");
    reveal_strlit("'unknown'");
    reveal_strlit("\nON CONFLICT(");
    reveal_strlit(") DO UPDATE SET\n    ");
    reveal_strlit(" = excluded.");
    reveal_strlit(",\n    ");
    lemma_places();
    reveal_with_fuel(listed, 7);
    reveal_with_fuel(taken_over, 3);
    let row = seq![
        ("agent_name"@, Cell::Place(1)),
        ("agent_role"@, Cell::Place(1)),
        ("llm_provider"@, Cell::Fixed("'unknown'"@)),
        ("llm_model"@, Cell::Fixed("'unknown'"@)),
        ("memory_block_ids"@, Cell::Place(2)),
        ("updated_at"@, Cell::Place(3)),
    ];
    let columns = row.map_values(|entry: (Seq<char>, Cell)| entry.0);
    let cells = row.map_values(|entry: (Seq<char>, Cell)| cell_text(entry.1));
    let all = UPSERT_MEMORY_BLOCKS@;
    assert(all.subrange(30, 107) =~= listed(columns, 0));
    assert(all.subrange(118, 154) =~= listed(cells, 0));
    assert(all.subrange(0, 155) =~= insertion("INSERT INTO"@, "agent_state"@, row));
    assert(all.subrange(155, 280) =~= conflict(
        "agent_name"@,
        seq!["memory_block_ids"@, "updated_at"@],
    ));
    assert(all =~= all.subrange(0, 155) + all.subrange(155, 280));
}

/// What an agent remembers is kept in its row; nothing else of a row that is there
/// changes but when it was changed.
pub proof fn law_memory_row(agent_name: Seq<char>, payload: Seq<char>, now: Seq<char>)
    ensures
        ({
            let statement = memory_row(agent_name, payload, now);
            let row = seq![
                ("agent_name"@, Cell::Place(1)),
                ("agent_role"@, Cell::Place(1)),
                ("llm_provider"@, Cell::Fixed("'unknown'"@)),
                ("llm_model"@, Cell::Fixed("'unknown'"@)),
                ("memory_block_ids"@, Cell::Place(2)),
                ("updated_at"@, Cell::Place(3)),
            ];
            &&& statement.sql == insertion("INSERT INTO"@, "agent_state"@, row) + conflict(
                    "agent_name"@,
                    seq!["memory_block_ids"@, "updated_at"@],
                )
            &&& statement.values.len() == 3
            &&& columns_get(row, statement.values) == seq![
                ("agent_name"@, ValueModel::Text(agent_name)),
                ("agent_role"@, ValueModel::Text(agent_name)),
                ("llm_provider"@, ValueModel::Text("'unknown'"@)),
                ("llm_model"@, ValueModel::Text("'unknown'"@)),
                ("memory_block_ids"@, ValueModel::Text(payload)),
                ("updated_at"@, ValueModel::Text(now)),
            ]
        }),
{
    lemma_upsert_memory_blocks_text();
    let statement = memory_row(agent_name, payload, now);
    let row = seq![
        ("agent_name"@, Cell::Place(1)),
        ("agent_role"@, Cell::Place(1)),
        ("llm_provider"@, Cell::Fixed("'unknown'"@)),
        ("llm_model"@, Cell::Fixed("'unknown'"@)),
        ("memory_block_ids"@, Cell::Place(2)),
        ("updated_at"@, Cell::Place(3)),
    ];
    assert(columns_get(row, statement.values) =~= seq![
        ("agent_name"@, ValueModel::Text(agent_name)),
        ("agent_role"@, ValueModel::Text(agent_name)),
        ("llm_provider"@, ValueModel::Text("'unknown'"@)),
        ("llm_model"@, ValueModel::Text("'unknown'"@)),
        ("memory_block_ids"@, ValueModel::Text(payload)),
        ("updated_at"@, ValueModel::Text(now)),
    ]);
}

// ---------------------------------------------------------------------------
// Agents in a run
// ---------------------------------------------------------------------------

proof fn lemma_insert_runtime_text()
    ensures
        INSERT_RUNTIME@ == insertion(
            "INSERT INTO"@,
            "agent_runtime_state"@,
            seq![
                ("runtime_id"@, Cell::Place(1)),
                ("run_id"@, Cell::Place(2)),
                ("thread_id"@, Cell::Place(3)),
                ("canonical_role"@, Cell::Place(4)),
                ("display_name"@, Cell::Place(5)),
                ("ownership"@, Cell::Place(6)),
                ("status"@, Cell::Place(7)),
                ("provider"@, Cell::Place(8)),
                ("surface"@, Cell::Place(9)),
                ("source"@, Cell::Place(10)),
                ("last_heartbeat_at"@, Cell::Place(11)),
                ("started_at"@, Cell::Place(12)),
                ("updated_at"@, Cell::Place(13)),
            ],
        ),
{
    reveal_strlit(
        "INSERT INTO agent_runtime_state (\n    runtime_id, run_id, thread_id, canonical_role, display_name, ownership, status, provider, surface, source, last_heartbeat_at, started_at, updated_at\n)\nVALUES (?1, ?2, ?3, ?4, ?5, ?6, ?7, ?8, ?9, ?10, ?11, ?12, ?13)",
    );
    reveal_strlit("INSERT INTO");
    reveal_strlit("agent_runtime_state");
    reveal_strlit(" ");
    reveal_strlit(" (\n    ");
    reveal_strlit("\n)\nVALUES (");
    reveal_strlit(")");
    reveal_strlit("?");
    reveal_strlit(", ");
    reveal_strlit("runtime_id");
    reveal_strlit("run_id");
    reveal_strlit("thread_id");
    reveal_strlit("canonical_role");
    reveal_strlit("display_name");
    reveal_strlit("ownership");
    reveal_strlit("status");
    reveal_strlit("provider");
    reveal_strlit("surface");
    reveal_strlit("source");
    reveal_strlit("last_heartbeat_at");
    reveal_strlit("started_at");
    reveal_strlit("updated_at");
    lemma_places();
    reveal_with_fuel(listed, 14);
    let row = seq![
        ("runtime_id"@, Cell::Place(1)),
        ("run_id"@, Cell::Place(2)),
        ("thread_id"@, Cell::Place(3)),
        ("canonical_role"@, Cell::Place(4)),
        ("display_name"@, Cell::Place(5)),
        ("ownership"@, Cell::Place(6)),
        ("status"@, Cell::Place(7)),
        ("provider"@, Cell::Place(8)),
        ("surface"@, Cell::Place(9)),
        ("source"@, Cell::Place(10)),
        ("last_heartbeat_at"@, Cell::Place(11)),
        ("started_at"@, Cell::Place(12)),
        ("updated_at"@, Cell::Place(13)),
    ];
    let columns = row.map_values(|entry: (Seq<char>, Cell)| entry.0);
    let cells = row.map_values(|entry: (Seq<char>, Cell)| cell_text(entry.1));
    let all = INSERT_RUNTIME@;
    assert(all.subrange(38, 186) =~= listed(columns, 0));
    assert(all.subrange(197, 251) =~= listed(cells, 0));
    assert(all.subrange(0, 252) =~= insertion("INSERT INTO"@, "agent_runtime_state"@, row));
    assert(all =~= all.subrange(0, 252));
}

/// An agent of a run is kept as a row in which each column holds what its name says.
/// It counts as started when it was heard of, or now where that is not known.
pub proof fn law_runtime_row(run_id: Seq<char>, runtime: AgentRuntimeState, now: Seq<char>)
    ensures
        ({
            let statement = runtime_statement(run_id, runtime, now);
            let row = seq![
                ("runtime_id"@, Cell::Place(1)),
                ("run_id"@, Cell::Place(2)),
                ("thread_id"@, Cell::Place(3)),
                ("canonical_role"@, Cell::Place(4)),
                ("display_name"@, Cell::Place(5)),
                ("ownership"@, Cell::Place(6)),
                ("status"@, Cell::Place(7)),
                ("provider"@, Cell::Place(8)),
                ("surface"@, Cell::Place(9)),
                ("source"@, Cell::Place(10)),
                ("last_heartbeat_at"@, Cell::Place(11)),
                ("started_at"@, Cell::Place(12)),
                ("updated_at"@, Cell::Place(13)),
            ];
            &&& statement.sql == insertion("INSERT INTO"@, "agent_runtime_state"@, row)
            &&& statement.values.len() == 13
            &&& columns_get(row, statement.values) == seq![
                ("runtime_id"@, ValueModel::Text(runtime.runtime_id@)),
                ("run_id"@, ValueModel::Text(run_id)),
                ("thread_id"@, ValueModel::MaybeText(optional_text(runtime.thread_id))),
                ("canonical_role"@, ValueModel::Text(runtime.canonical_role@)),
                ("display_name"@, ValueModel::Text(runtime.display_name@)),
                ("ownership"@, ValueModel::Text(runtime.ownership@)),
                ("status"@, ValueModel::Text(runtime.status@)),
                ("provider"@, ValueModel::MaybeText(optional_text(runtime.provider))),
                ("surface"@, ValueModel::MaybeText(optional_text(runtime.surface))),
                ("source"@, ValueModel::Text(runtime.source@)),
                ("last_heartbeat_at"@, ValueModel::Text(runtime.last_heartbeat_at@)),
                ("started_at"@, ValueModel::Text(if trimmed(runtime.last_heartbeat_at@).len() == 0 {
                    now
                } else {
                    runtime.last_heartbeat_at@
                })),
                ("updated_at"@, ValueModel::Text(runtime.last_heartbeat_at@)),
            ]
        }),
{
    lemma_insert_runtime_text();
    let statement = runtime_statement(run_id, runtime, now);
    let row = seq![
        ("runtime_id"@, Cell::Place(1)),
        ("run_id"@, Cell::Place(2)),
        ("thread_id"@, Cell::Place(3)),
        ("canonical_role"@, Cell::Place(4)),
        ("display_name"@, Cell::Place(5)),
        ("ownership"@, Cell::Place(6)),
        ("status"@, Cell::Place(7)),
        ("provider"@, Cell::Place(8)),
        ("surface"@, Cell::Place(9)),
        ("source"@, Cell::Place(10)),
        ("last_heartbeat_at"@, Cell::Place(11)),
        ("started_at"@, Cell::Place(12)),
        ("updated_at"@, Cell::Place(13)),
    ];
    assert(columns_get(row, statement.values) =~= seq![
        ("runtime_id"@, ValueModel::Text(runtime.runtime_id@)),
        ("run_id"@, ValueModel::Text(run_id)),
        ("thread_id"@, ValueModel::MaybeText(optional_text(runtime.thread_id))),
        ("canonical_role"@, ValueModel::Text(runtime.canonical_role@)),
        ("display_name"@, ValueModel::Text(runtime.display_name@)),
        ("ownership"@, ValueModel::Text(runtime.ownership@)),
        ("status"@, ValueModel::Text(runtime.status@)),
        ("provider"@, ValueModel::MaybeText(optional_text(runtime.provider))),
        ("surface"@, ValueModel::MaybeText(optional_text(runtime.surface))),
        ("source"@, ValueModel::Text(runtime.source@)),
        ("last_heartbeat_at"@, ValueModel::Text(runtime.last_heartbeat_at@)),
        ("started_at"@, ValueModel::Text(if trimmed(runtime.last_heartbeat_at@).len() == 0 {
                    now
                } else {
                    runtime.last_heartbeat_at@
                })),
        ("updated_at"@, ValueModel::Text(runtime.last_heartbeat_at@)),
    ]);
}

/// The agents of a run are kept by taking the rows of that run away and adding a
/// row for each, in order.
pub proof fn law_runtimes_are_replaced(
    run_id: Seq<char>,
    runtimes: Seq<AgentRuntimeState>,
    now: Seq<char>,
)
    ensures
        ({
            let statements = runtime_statements(run_id, runtimes, now);
            &&& statements.len() == runtimes.len() + 1
            &&& statements[0].sql == "DELETE FROM agent_runtime_state WHERE run_id = ?1"@
            &&& statements[0].values == seq![ValueModel::Text(run_id)]
            &&& forall|i: int|
                0 <= i < runtimes.len() ==> statements[i + 1] == runtime_statement(
                    run_id,
                    #[trigger] runtimes[i],
                    now,
                )
        }),
{
}

// ---------------------------------------------------------------------------
// Policy events
// ---------------------------------------------------------------------------

proof fn lemma_insert_policy_event_text()
    ensures
        INSERT_POLICY_EVENT@ == insertion(
            "INSERT OR REPLACE INTO"@,
            "coordination_policy_events_db"@,
            seq![
                ("event_id"@, Cell::Place(1)),
                ("managed_by"@, Cell::Place(2)),
                ("event_type"@, Cell::Place(3)),
                ("status"@, Cell::Place(4)),
                ("agent"@, Cell::Place(5)),
                ("conflicting_agent"@, Cell::Place(6)),
                ("files_json"@, Cell::Place(7)),
                ("message"@, Cell::Place(8)),
                ("created_at"@, Cell::Place(9)),
            ],
        ),
{
    reveal_strlit(
        "INSERT OR REPLACE INTO coordination_policy_events_db (\n    event_id, managed_by, event_type, status, agent, conflicting_agent, files_json, message, created_at\n)\nVALUES (?1, ?2, ?3, ?4, ?5, ?6, ?7, ?8, ?9)",
    );
    reveal_strlit("INSERT OR REPLACE INTO");
    reveal_strlit("coordination_policy_events_db");
    reveal_strlit(" ");
    reveal_strlit(" (\n    ");
    reveal_strlit("\n)\nVALUES (");
    reveal_strlit(")");
    reveal_strlit("?");
    reveal_strlit(", ");
    reveal_strlit("event_id");
    reveal_strlit("managed_by");
    reveal_strlit("event_type");
    reveal_strlit("status");
    reveal_strlit("agent");
    reveal_strlit("conflicting_agent");
    reveal_strlit("files_json");
    reveal_strlit("message");
    reveal_strlit("created_at");
    lemma_places();
    reveal_with_fuel(listed, 10);
    let row = seq![
        ("event_id"@, Cell::Place(1)),
        ("managed_by"@, Cell::Place(2)),
        ("event_type"@, Cell::Place(3)),
        ("status"@, Cell::Place(4)),
        ("agent"@, Cell::Place(5)),
        ("conflicting_agent"@, Cell::Place(6)),
        ("files_json"@, Cell::Place(7)),
        ("message"@, Cell::Place(8)),
        ("created_at"@, Cell::Place(9)),
    ];
    let columns = row.map_values(|entry: (Seq<char>, Cell)| entry.0);
    let cells = row.map_values(|entry: (Seq<char>, Cell)| cell_text(entry.1));
    let all = INSERT_POLICY_EVENT@;
    assert(all.subrange(59, 158) =~= listed(columns, 0));
    assert(all.subrange(169, 203) =~= listed(cells, 0));
    assert(all.subrange(0, 204) =~= insertion("INSERT OR REPLACE INTO"@, "coordination_policy_events_db"@, row));
    assert(all =~= all.subrange(0, 204));
}

/// A policy event is kept as a row in which each column holds what its name says.
pub proof fn law_policy_row(event: CoordinationPolicyEvent, files: Seq<char>)
    ensures
        ({
            let statement = policy_row(event, files);
            let row = seq![
                ("event_id"@, Cell::Place(1)),
                ("managed_by"@, Cell::Place(2)),
                ("event_type"@, Cell::Place(3)),
                ("status"@, Cell::Place(4)),
                ("agent"@, Cell::Place(5)),
                ("conflicting_agent"@, Cell::Place(6)),
                ("files_json"@, Cell::Place(7)),
                ("message"@, Cell::Place(8)),
                ("created_at"@, Cell::Place(9)),
            ];
            &&& statement.sql == insertion("INSERT OR REPLACE INTO"@, "coordination_policy_events_db"@, row)
            &&& statement.values.len() == 9
            &&& columns_get(row, statement.values) == seq![
                ("event_id"@, ValueModel::Text(event.event_id@)),
                ("managed_by"@, ValueModel::Text(event.managed_by@)),
                ("event_type"@, ValueModel::Text(event.event_type@)),
                ("status"@, ValueModel::Text(event.status@)),
                ("agent"@, ValueModel::MaybeText(optional_text(event.agent))),
                ("conflicting_agent"@, ValueModel::MaybeText(optional_text(event.conflicting_agent))),
                ("files_json"@, ValueModel::Text(files)),
                ("message"@, ValueModel::Text(event.message@)),
                ("created_at"@, ValueModel::Text(event.created_at@)),
            ]
        }),
{
    lemma_insert_policy_event_text();
    let statement = policy_row(event, files);
    let row = seq![
        ("event_id"@, Cell::Place(1)),
        ("managed_by"@, Cell::Place(2)),
        ("event_type"@, Cell::Place(3)),
        ("status"@, Cell::Place(4)),
        ("agent"@, Cell::Place(5)),
        ("conflicting_agent"@, Cell::Place(6)),
        ("files_json"@, Cell::Place(7)),
        ("message"@, Cell::Place(8)),
        ("created_at"@, Cell::Place(9)),
    ];
    assert(columns_get(row, statement.values) =~= seq![
        ("event_id"@, ValueModel::Text(event.event_id@)),
        ("managed_by"@, ValueModel::Text(event.managed_by@)),
        ("event_type"@, ValueModel::Text(event.event_type@)),
        ("status"@, ValueModel::Text(event.status@)),
        ("agent"@, ValueModel::MaybeText(optional_text(event.agent))),
        ("conflicting_agent"@, ValueModel::MaybeText(optional_text(event.conflicting_agent))),
        ("files_json"@, ValueModel::Text(files)),
        ("message"@, ValueModel::Text(event.message@)),
        ("created_at"@, ValueModel::Text(event.created_at@)),
    ]);
}

// ---------------------------------------------------------------------------
// Projections of causal graphs
// ---------------------------------------------------------------------------

proof fn lemma_upsert_projection_text()
    ensures
        UPSERT_PROJECTION@ == insertion(
            "INSERT INTO"@,
            "causal_graph_projections"@,
            seq![
                ("run_id"@, Cell::Place(1)),
                ("backend"@, Cell::Place(2)),
                ("status"@, Cell::Place(3)),
                ("database_name"@, Cell::Place(4)),
                ("schema_path"@, Cell::Place(5)),
                ("graph_json"@, Cell::Place(6)),
                ("episode_count"@, Cell::Place(7)),
                ("event_count"@, Cell::Place(8)),
                ("link_count"@, Cell::Place(9)),
                ("hypothesis_count"@, Cell::Place(10)),
                ("projected_at"@, Cell::Place(11)),
            ],
        ) + conflict(
            "run_id"@,
            seq![
                "backend"@,
                "status"@,
                "database_name"@,
                "schema_path"@,
                "graph_json"@,
                "episode_count"@,
                "event_count"@,
                "link_count"@,
                "hypothesis_count"@,
                "projected_at"@,
            ],
        ),
{
    reveal_strlit(
        "INSERT INTO causal_graph_projections (\n    run_id, backend, status, database_name, schema_path, graph_json, episode_count, event_count, link_count, hypothesis_count, projected_at\n)\nVALUES (?1, ?2, ?3, ?4, ?5, ?6, ?7, ?8, ?9, ?10, ?11)\nON CONFLICT(run_id) DO UPDATE SET\n    backend = excluded.backend,\n    status = excluded.status,\n    database_name = excluded.database_name,\n    schema_path = excluded.schema_path,\n    graph_json = excluded.graph_json,\n    episode_count = excluded.episode_count,\n    event_count = excluded.event_count,\n    link_count = excluded.link_count,\n    hypothesis_count = excluded.hypothesis_count,\n    projected_at = excluded.projected_at",
    );
    reveal_strlit("INSERT INTO");
    reveal_strlit("causal_graph_projections");
    reveal_strlit(" ");
    reveal_strlit(" (\n    ");
    reveal_strlit("\n)\nVALUES (");
    reveal_strlit(")");
    reveal_strlit("?");
    reveal_strlit(", ");
    reveal_strlit("run_id");
    reveal_strlit("backend");
    reveal_strlit("status");
    reveal_strlit("database_name");
    reveal_strlit("schema_path");
    reveal_strlit("graph_json");
    reveal_strlit("episode_count");
    reveal_strlit("event_count");
    reveal_strlit("link_count");
    reveal_strlit("hypothesis_count");
    reveal_strlit("projected_at");
    reveal_strlit("\nON CONFLICT(");
    reveal_strlit(") DO UPDATE SET\n    ");
    reveal_strlit(" = excluded.");
    reveal_strlit(",\n    ");
    lemma_places();
    reveal_with_fuel(listed, 12);
    reveal_with_fuel(taken_over, 12);
    let row = seq![
        ("run_id"@, Cell::Place(1)),
        ("backend"@, Cell::Place(2)),
        ("status"@, Cell::Place(3)),
        ("database_name"@, Cell::Place(4)),
        ("schema_path"@, Cell::Place(5)),
        ("graph_json"@, Cell::Place(6)),
        ("episode_count"@, Cell::Place(7)),
        ("event_count"@, Cell::Place(8)),
        ("link_count"@, Cell::Place(9)),
        ("hypothesis_count"@, Cell::Place(10)),
        ("projected_at"@, Cell::Place(11)),
    ];
    let columns = row.map_values(|entry: (Seq<char>, Cell)| entry.0);
    let cells = row.map_values(|entry: (Seq<char>, Cell)| cell_text(entry.1));
    let all = UPSERT_PROJECTION@;
    assert(all.subrange(43, 178) =~= listed(columns, 0));
    assert(all.subrange(189, 233) =~= listed(cells, 0));
    assert(all.subrange(0, 234) =~= insertion("INSERT INTO"@, "causal_graph_projections"@, row));
    assert(all.subrange(234, 665) =~= conflict(
        "run_id"@,
        seq![
            "backend"@,
            "status"@,
            "database_name"@,
            "schema_path"@,
            "graph_json"@,
            "episode_count"@,
            "event_count"@,
            "link_count"@,
            "hypothesis_count"@,
            "projected_at"@,
        ],
    ));
    assert(all =~= all.subrange(0, 234) + all.subrange(234, 665));
}

/// A projection is kept as a row in which each column holds what its name says, and
/// takes the place of an earlier one of the run.
pub proof fn law_projection_row(record: CausalGraphProjectionRecord, projected_at: Seq<char>)
    ensures
        ({
            let statement = projection_values(record, projected_at);
            let row = seq![
                ("run_id"@, Cell::Place(1)),
                ("backend"@, Cell::Place(2)),
                ("status"@, Cell::Place(3)),
                ("database_name"@, Cell::Place(4)),
                ("schema_path"@, Cell::Place(5)),
                ("graph_json"@, Cell::Place(6)),
                ("episode_count"@, Cell::Place(7)),
                ("event_count"@, Cell::Place(8)),
                ("link_count"@, Cell::Place(9)),
                ("hypothesis_count"@, Cell::Place(10)),
                ("projected_at"@, Cell::Place(11)),
            ];
            &&& statement.sql == insertion("INSERT INTO"@, "causal_graph_projections"@, row) + conflict(
                    "run_id"@,
                    seq![
                        "backend"@,
                        "status"@,
                        "database_name"@,
                        "schema_path"@,
                        "graph_json"@,
                        "episode_count"@,
                        "event_count"@,
                        "link_count"@,
                        "hypothesis_count"@,
                        "projected_at"@,
                    ],
                )
            &&& statement.values.len() == 11
            &&& columns_get(row, statement.values) == seq![
                ("run_id"@, ValueModel::Text(record.run_id@)),
                ("backend"@, ValueModel::Text(match record.backend {
                    CausalGraphBackend::TypeDb3 => "typedb3"@,
                    CausalGraphBackend::Disabled => "disabled"@,
                })),
                ("status"@, ValueModel::Text(record.status@)),
                ("database_name"@, ValueModel::Text(record.database@)),
                ("schema_path"@, ValueModel::Text(record.schema_path@)),
                ("graph_json"@, ValueModel::Text(record.graph_json@)),
                ("episode_count"@, ValueModel::Integer(record.episode_count as i64 as int)),
                ("event_count"@, ValueModel::Integer(record.event_count as i64 as int)),
                ("link_count"@, ValueModel::Integer(record.link_count as i64 as int)),
                ("hypothesis_count"@, ValueModel::Integer(record.hypothesis_count as i64 as int)),
                ("projected_at"@, ValueModel::Text(projected_at)),
            ]
        }),
{
    lemma_upsert_projection_text();
    let statement = projection_values(record, projected_at);
    let row = seq![
        ("run_id"@, Cell::Place(1)),
        ("backend"@, Cell::Place(2)),
        ("status"@, Cell::Place(3)),
        ("database_name"@, Cell::Place(4)),
        ("schema_path"@, Cell::Place(5)),
        ("graph_json"@, Cell::Place(6)),
        ("episode_count"@, Cell::Place(7)),
        ("event_count"@, Cell::Place(8)),
        ("link_count"@, Cell::Place(9)),
        ("hypothesis_count"@, Cell::Place(10)),
        ("projected_at"@, Cell::Place(11)),
    ];
    assert(columns_get(row, statement.values) =~= seq![
        ("run_id"@, ValueModel::Text(record.run_id@)),
        ("backend"@, ValueModel::Text(match record.backend {
                    CausalGraphBackend::TypeDb3 => "typedb3"@,
                    CausalGraphBackend::Disabled => "disabled"@,
                })),
        ("status"@, ValueModel::Text(record.status@)),
        ("database_name"@, ValueModel::Text(record.database@)),
        ("schema_path"@, ValueModel::Text(record.schema_path@)),
        ("graph_json"@, ValueModel::Text(record.graph_json@)),
        ("episode_count"@, ValueModel::Integer(record.episode_count as i64 as int)),
        ("event_count"@, ValueModel::Integer(record.event_count as i64 as int)),
        ("link_count"@, ValueModel::Integer(record.link_count as i64 as int)),
        ("hypothesis_count"@, ValueModel::Integer(record.hypothesis_count as i64 as int)),
        ("projected_at"@, ValueModel::Text(projected_at)),
    ]);
}

// ---------------------------------------------------------------------------
// Queries
// ---------------------------------------------------------------------------

/// Every agent is asked for, by name, with every column.
pub proof fn law_agents_query()
    ensures
        SELECT_AGENTS@ == selection(
            seq![
                "agent_name"@,
                "agent_role"@,
                "llm_provider"@,
                "llm_model"@,
                "memory_block_ids"@,
                "last_stop_reason"@,
                "last_active_run"@,
                "behavior_contract_hash"@,
                "updated_at"@,
            ],
            "agent_state"@,
        ) + "\nORDER BY agent_name"@,
{
    reveal_strlit(
        "SELECT agent_name, agent_role, llm_provider, llm_model, memory_block_ids, last_stop_reason, last_active_run, behavior_contract_hash, updated_at\nFROM agent_state\nORDER BY agent_name",
    );
    reveal_strlit("SELECT ");
    reveal_strlit("\nFROM ");
    reveal_strlit(", ");
    reveal_strlit("agent_state");
    reveal_strlit("\nORDER BY agent_name");
    reveal_strlit("agent_name");
    reveal_strlit("agent_role");
    reveal_strlit("llm_provider");
    reveal_strlit("llm_model");
    reveal_strlit("memory_block_ids");
    reveal_strlit("last_stop_reason");
    reveal_strlit("last_active_run");
    reveal_strlit("behavior_contract_hash");
    reveal_strlit("updated_at");
    reveal_with_fuel(listed, 10);
    let columns = seq![
        "agent_name"@,
        "agent_role"@,
        "llm_provider"@,
        "llm_model"@,
        "memory_block_ids"@,
        "last_stop_reason"@,
        "last_active_run"@,
        "behavior_contract_hash"@,
        "updated_at"@,
    ];
    let all = SELECT_AGENTS@;
    assert(all.subrange(7, 143) =~= listed(columns, 0));
    assert(all =~= selection(columns, "agent_state"@) + "\nORDER BY agent_name"@);
}

/// One agent is asked for by its name, with every column.
pub proof fn law_agent_query()
    ensures
        SELECT_AGENT@ == selection(
            seq![
                "agent_name"@,
                "agent_role"@,
                "llm_provider"@,
                "llm_model"@,
                "memory_block_ids"@,
                "last_stop_reason"@,
                "last_active_run"@,
                "behavior_contract_hash"@,
                "updated_at"@,
            ],
            "agent_state"@,
        ) + "\nWHERE agent_name = ?1"@,
{
    reveal_strlit(
        "SELECT agent_name, agent_role, llm_provider, llm_model, memory_block_ids, last_stop_reason, last_active_run, behavior_contract_hash, updated_at\nFROM agent_state\nWHERE agent_name = ?1",
    );
    reveal_strlit("SELECT ");
    reveal_strlit("\nFROM ");
    reveal_strlit(", ");
    reveal_strlit("agent_state");
    reveal_strlit("\nWHERE agent_name = ?1");
    reveal_strlit("agent_name");
    reveal_strlit("agent_role");
    reveal_strlit("llm_provider");
    reveal_strlit("llm_model");
    reveal_strlit("memory_block_ids");
    reveal_strlit("last_stop_reason");
    reveal_strlit("last_active_run");
    reveal_strlit("behavior_contract_hash");
    reveal_strlit("updated_at");
    reveal_with_fuel(listed, 10);
    let columns = seq![
        "agent_name"@,
        "agent_role"@,
        "llm_provider"@,
        "llm_model"@,
        "memory_block_ids"@,
        "last_stop_reason"@,
        "last_active_run"@,
        "behavior_contract_hash"@,
        "updated_at"@,
    ];
    let all = SELECT_AGENT@;
    assert(all.subrange(7, 143) =~= listed(columns, 0));
    assert(all =~= selection(columns, "agent_state"@) + "\nWHERE agent_name = ?1"@);
}

/// One projection is asked for by its run, with every column.
pub proof fn law_projection_query()
    ensures
        SELECT_PROJECTION@ == selection(
            seq![
                "run_id"@,
                "backend"@,
                "status"@,
                "database_name"@,
                "schema_path"@,
                "graph_json"@,
                "episode_count"@,
                "event_count"@,
                "link_count"@,
                "hypothesis_count"@,
                "projected_at"@,
            ],
            "causal_graph_projections"@,
        ) + "\nWHERE run_id = ?1"@,
{
    reveal_strlit(
        "SELECT run_id, backend, status, database_name, schema_path, graph_json, episode_count, event_count, link_count, hypothesis_count, projected_at\nFROM causal_graph_projections\nWHERE run_id = ?1",
    );
    reveal_strlit("SELECT ");
    reveal_strlit("\nFROM ");
    reveal_strlit(", ");
    reveal_strlit("causal_graph_projections");
    reveal_strlit("\nWHERE run_id = ?1");
    reveal_strlit("run_id");
    reveal_strlit("backend");
    reveal_strlit("status");
    reveal_strlit("database_name");
    reveal_strlit("schema_path");
    reveal_strlit("graph_json");
    reveal_strlit("episode_count");
    reveal_strlit("event_count");
    reveal_strlit("link_count");
    reveal_strlit("hypothesis_count");
    reveal_strlit("projected_at");
    reveal_with_fuel(listed, 12);
    let columns = seq![
        "run_id"@,
        "backend"@,
        "status"@,
        "database_name"@,
        "schema_path"@,
        "graph_json"@,
        "episode_count"@,
        "event_count"@,
        "link_count"@,
        "hypothesis_count"@,
        "projected_at"@,
    ];
    let all = SELECT_PROJECTION@;
    assert(all.subrange(7, 142) =~= listed(columns, 0));
    assert(all =~= selection(columns, "causal_graph_projections"@) + "\nWHERE run_id = ?1"@);
}

/// Projections are asked for with every column, the latest first, up to a number.
pub proof fn law_recent_projections_query()
    ensures
        SELECT_RECENT_PROJECTIONS@ == selection(
            seq![
                "run_id"@,
                "backend"@,
                "status"@,
                "database_name"@,
                "schema_path"@,
                "graph_json"@,
                "episode_count"@,
                "event_count"@,
                "link_count"@,
                "hypothesis_count"@,
                "projected_at"@,
            ],
            "causal_graph_projections"@,
        ) + "\nORDER BY projected_at DESC\nLIMIT ?1"@,
{
    reveal_strlit(
        "SELECT run_id, backend, status, database_name, schema_path, graph_json, episode_count, event_count, link_count, hypothesis_count, projected_at\nFROM causal_graph_projections\nORDER BY projected_at DESC\nLIMIT ?1",
    );
    reveal_strlit("SELECT ");
    reveal_strlit("\nFROM ");
    reveal_strlit(", ");
    reveal_strlit("causal_graph_projections");
    reveal_strlit("\nORDER BY projected_at DESC\nLIMIT ?1");
    reveal_strlit("run_id");
    reveal_strlit("backend");
    reveal_strlit("status");
    reveal_strlit("database_name");
    reveal_strlit("schema_path");
    reveal_strlit("graph_json");
    reveal_strlit("episode_count");
    reveal_strlit("event_count");
    reveal_strlit("link_count");
    reveal_strlit("hypothesis_count");
    reveal_strlit("projected_at");
    reveal_with_fuel(listed, 12);
    let columns = seq![
        "run_id"@,
        "backend"@,
        "status"@,
        "database_name"@,
        "schema_path"@,
        "graph_json"@,
        "episode_count"@,
        "event_count"@,
        "link_count"@,
        "hypothesis_count"@,
        "projected_at"@,
    ];
    let all = SELECT_RECENT_PROJECTIONS@;
    assert(all.subrange(7, 142) =~= listed(columns, 0));
    assert(all =~= selection(columns, "causal_graph_projections"@) + "\nORDER BY projected_at DESC\nLIMIT ?1"@);
}

/// The projections of the runs of a spec are asked for with every column, the latest
/// first, up to a number.
pub proof fn law_spec_projections_query()
    ensures
        SELECT_SPEC_PROJECTIONS@ == selection(
            seq![
                "p.run_id"@,
                "p.backend"@,
                "p.status"@,
                "p.database_name"@,
                "p.schema_path"@,
                "p.graph_json"@,
                "p.episode_count"@,
                "p.event_count"@,
                "p.link_count"@,
                "p.hypothesis_count"@,
                "p.projected_at"@,
            ],
            "causal_graph_projections p"@,
        ) + "\nJOIN runs r ON r.run_id = p.run_id\nWHERE r.spec_id = ?1\nORDER BY p.projected_at DESC\nLIMIT ?2"@,
{
    reveal_strlit(
        "SELECT p.run_id, p.backend, p.status, p.database_name, p.schema_path, p.graph_json, p.episode_count, p.event_count, p.link_count, p.hypothesis_count, p.projected_at\nFROM causal_graph_projections p\nJOIN runs r ON r.run_id = p.run_id\nWHERE r.spec_id = ?1\nORDER BY p.projected_at DESC\nLIMIT ?2",
    );
    reveal_strlit("SELECT ");
    reveal_strlit("\nFROM ");
    reveal_strlit(", ");
    reveal_strlit("causal_graph_projections p");
    reveal_strlit(
        "\nJOIN runs r ON r.run_id = p.run_id\nWHERE r.spec_id = ?1\nORDER BY p.projected_at DESC\nLIMIT ?2",
    );
    reveal_strlit("p.run_id");
    reveal_strlit("p.backend");
    reveal_strlit("p.status");
    reveal_strlit("p.database_name");
    reveal_strlit("p.schema_path");
    reveal_strlit("p.graph_json");
    reveal_strlit("p.episode_count");
    reveal_strlit("p.event_count");
    reveal_strlit("p.link_count");
    reveal_strlit("p.hypothesis_count");
    reveal_strlit("p.projected_at");
    reveal_with_fuel(listed, 12);
    let columns = seq![
        "p.run_id"@,
        "p.backend"@,
        "p.status"@,
        "p.database_name"@,
        "p.schema_path"@,
        "p.graph_json"@,
        "p.episode_count"@,
        "p.event_count"@,
        "p.link_count"@,
        "p.hypothesis_count"@,
        "p.projected_at"@,
    ];
    let all = SELECT_SPEC_PROJECTIONS@;
    assert(all.subrange(7, 164) =~= listed(columns, 0));
    assert(all =~= selection(columns, "causal_graph_projections p"@) + "\nJOIN runs r ON r.run_id = p.run_id\nWHERE r.spec_id = ?1\nORDER BY p.projected_at DESC\nLIMIT ?2"@);
}

/// What is taken away, what is changed and what is counted.
pub proof fn law_other_statements()
    ensures
        DELETE_LEASES@ == "DELETE FROM coordination_leases"@,
        DELETE_RUNTIMES@ == "DELETE FROM agent_runtime_state WHERE run_id = ?1"@,
        UPDATE_STOP_REASON@
            == "UPDATE agent_state\nSET last_stop_reason = ?2,\n    updated_at = ?3\nWHERE agent_name = ?1"@,
        COUNT_PROJECTIONS@ == "SELECT COUNT(*) FROM causal_graph_projections"@,
{
}

} // verus!

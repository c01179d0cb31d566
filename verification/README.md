# harkonnen

The decisions of a software factory, written in Rust and verified with Verus.

A model works on a staged workspace. It proposes whole files or patches in plain
text, or it works in a loop of tool calls in which it reads files, lists
directories and asks for writes. This library reads what the model says, decides
what to do about it and says exactly what it decides.

| Module | What it is about |
| --- | --- |
| `mason_transport` | whole files between fences, and patches that replace one region |
| `mason_tools` | tool calls and their results |
| `mason_guard` | writes that cannot be read, files that are not for the model |
| `tool_loop` | the loop between the model and its workspace, as a state machine |
| `workspace` | paths below the workspace |
| `gaia` | the GAIA level 3 benchmark |
| `causal_graph` | the graph database: configuration, answers, connecting |
| `schema`, `db` | the state database: schema steps, statements, rows |
| `text`, `lines`, `words`, `search`, `order`, `pairs`, `numeral` | texts |
| `outside` | what is had from other crates without proof |
| `*_laws` | what holds of several functions at once |

Every function states in its contract what it returns, over spec functions that
stand next to it. The contracts speak of texts as sequences of characters.

`app/` is ordinary Rust around the library: it reads and writes files, asks the
model, talks to SQLite and TypeDB, and keeps floating point numbers.

## What is not proved

- What SQLite makes of the statements that `db` and `schema` hand out. `schema`
  and `db_laws` say what the steps and the statement about profiles do as their
  text reads, and the tests carry the statements out against a database in memory.
- What `outside` claims of `serde_json`, `chrono`, `sha2`, `typedb-driver` and the
  standard library. Each claim stands with the function that makes the call.

# nflow_daemon

The background process of nflow, which lets coding agents work: specs are written in a dialogue
with an agent, decomposed into epics, stories and tasks, and carried out by agents in git
worktrees of their own.

`src/` is the daemon's logic as a Verus library. A command is a machine: it asks for one action at
a time (`effects::Action`), is told the outcome (`effects::Event`), and goes on until it replies.
Of each machine, `begins` says how a request is taken up, `follows` says what each outcome leads
to, and `accepts` says which outcomes are awaited; a machine accepts every outcome of what it asks
for.

- `dispatch`, `answers`: from a request to its machine, and what holds of all answers.
- `projects`, `specs`, `sessions`: projects, specs, and the dialogues about them.
- `decompose`, `drafts`, `building`, `extract`, `plans`, `plan_view`: waves of work items.
- `execution`, `status`, `launch`, `tasks`, `stories`, `stop`: carrying the work out.
- `pipeline`, `stage_run`, `stage_output`, `pipeline_queries`, `pipeline_data`: pipelines of
  planning, implementing and reviewing.
- `logs`, `worktrees`, `cleanup`, `config`: what is left to look after.
- `daemon`, `recovery`, `platform`: the life of the process, and what a crash leaves.
- `json`, `text`, `seqs`, `ident`, `model`, `protocol`, and a module on the runs of agents: the
  values they speak of.

`app/` performs the actions: the socket, the database, files, git and processes. `tests/` runs the
machines against a world that is held in memory.

Messages to a client call the program that does the work "agent".

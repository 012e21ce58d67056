# hir-ty

The type layer of a Java front end, as a Verus library: every function states in
its contract what it computes, and Verus proves it.

- `list`, `names`, `ids`, `text`, `ty`, `member`, `items`, `body`, `syntax`: the data
  that the rest works on. Lists are persistent, types and names are plain values.
- `db`, `workspace`: the questions that the library asks of its surroundings
  (subtyping, member tables, class files, source sets). `facts` answers them from
  tables.
- `inference` with its parts (`reduce`, `incorporate`, `instantiation`, `lub`,
  `resolve`, `limit`): constraints on inference variables, and their solutions.
- `select`, `access`, `class_key`, `source_members`, `plugin`: members of classes,
  which of them are accessible, and which one an invocation means.
- `infer` with its parts: the types of expressions, definite assignment,
  reachability and exceptions of statements, and the reports on them.
- `effectively_final`, `walk`: scans of a body.
- `level_check`, `name_check`, `release_api`, `raw_type`, `range_ctx`: reports on
  the declarations of a file.

A function on the inference state has a specification function from the state
before to the state after. Laws that span functions are the proof functions whose
names begin with `law_`. That an inference leaves its surroundings alone (the
scopes, the target type, the enclosing lambdas and loops, and the reports while it
is tentative) is the `frame` of the state, which every inference function keeps. An expression
also keeps whether the end of the code is reached.

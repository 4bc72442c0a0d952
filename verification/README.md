# django_bakery

A Django project generator whose decisions are verified with Verus.

A *recipe* records every choice for one generated project: names, the Python and
Django versions, the database, API layer, frontend, add-ons, containers and credentials.
From a recipe the library decides everything a generation needs, and proves it:

- `recipe` — the recipe, its defaults and its validation rules.
- `options`, `choices` — the option enums with their file spellings, and the choice
  tables the questionnaire offers.
- `wizard` — the interactive questionnaire as a state machine: which question comes next,
  its default and validation rule, which questions a recipe skips, how an answer updates
  the recipe. A finished questionnaire yields a valid recipe; accepting a preset's
  defaults keeps the preset.
- `versions`, `version_map` — the bundled version pins, which packages a recipe needs,
  resolution against registry answers (pre-releases from PyPI are never pinned) and the
  compatibility warnings.
- `context` — the `bakery` namespace templates read: recipe fields, derived booleans,
  fresh URL-safe secrets, the current year and the version table.
- `engine` — the minijinja environment with the project's filters, and the rendering of
  entry names and file bodies.
- `render`, `paths` — the decisions of the template walk: skipped entries, output names,
  rendered or copied bodies, the target directory, and the path guard that keeps every
  write inside the project.
- `filters`, `text`, `error`, `cli` — template filters, string helpers, the error type,
  and what the command line decides before it prints (recipe file formats, summaries,
  next steps).

`app/` is the command line around the library: argument parsing, recipe files (serde),
prompts, registry lookups and the file system. `tests/` exercises the library on concrete
inputs.

# starling

JavaScript tasks: each runs one script on a native thread of its own and then
tells the supervisory thread, and its parent if it has one, how that went.

The library under `src/` holds the decisions, verified with Verus:

- `error`: the errors of the system, their texts, and what cloning keeps of them
- `exception`: JavaScript exceptions, and how a thrown value becomes one
- `extraction`: which questions to ask the JavaScript engine about a thrown
  value, in which order
- `task`: the states of a task, its messages, and what it does next
- `main_thread`: the thread of the main task
- `task_run`: what holds of a task from its creation to its end
- `text`: decimal numbers and the decoding of bytes

`app/` is ordinary Rust around it: it reads files, evaluates scripts with
SpiderMonkey (`mozjs`), and sends messages over the channels of `futures`.

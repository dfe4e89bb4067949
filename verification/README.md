# shader_playground

A collection of Bevy shader playground scenes whose decision logic is proved
with Verus.

- `src/` is the verified library: the scene list and the keys that select
  scenes, the render-world state machines of the compute scenes (Game of Life,
  mesh manipulation, mesh creation), the buffer ranges they bind, the
  explosion scene's button and particle index buffer, and the integer vertex
  attributes of the cube scenes. Each module states its laws as public proof
  functions.
- `tests/` runs the library on concrete values.
- `app/` is the Bevy application around the library: plugins, systems, render
  graph nodes, materials and everything that is floating-point math.
